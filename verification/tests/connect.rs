use ssh_sessions::connect::{
    ConnectAction, ConnectProgress, ConnectStage, ConnectStart, Connector, StepOutcome,
    ALREADY_CONNECTED, STEP_TIMEOUT_MS, TERMINAL_TYPE,
};
use ssh_sessions::errors::ConnectError;
use ssh_sessions::profile::{Credential, SshProfile};
use ssh_sessions::registry::{SshManager, SshSession};

fn profile(method: &str, password: Option<&str>, key_path: Option<&str>) -> SshProfile {
    SshProfile {
        id: "p1".to_string(),
        name: "Build box".to_string(),
        host: "10.0.0.5".to_string(),
        port: 2222,
        username: "ada".to_string(),
        auth_method: method.to_string(),
        password: password.map(|s| s.to_string()),
        key_path: key_path.map(|s| s.to_string()),
    }
}

fn begin(manager: &SshManager<u32>, profile: SshProfile, id: &str) -> Connector {
    match manager.connect(profile, id.to_string()) {
        ConnectStart::Proceed(connector) => connector,
        _ => panic!("the attempt should begin"),
    }
}

fn succeed(connector: Connector) -> Connector {
    match connector.advance(StepOutcome::Succeeded) {
        ConnectProgress::Continue(next) => next,
        _ => panic!("another step should follow"),
    }
}

fn at_stage(manager: &SshManager<u32>, profile: SshProfile, stage: ConnectStage) -> Connector {
    let mut connector = begin(manager, profile, "s1");
    while connector.current_stage() != stage {
        connector = succeed(connector);
    }
    connector
}

fn failure(connector: Connector, detail: &str) -> ConnectError {
    match connector.advance(StepOutcome::Failed(detail.to_string())) {
        ConnectProgress::Failed(e) => e,
        _ => panic!("the attempt should fail"),
    }
}

#[test]
fn connect_constants_have_their_values() {
    assert_eq!(TERMINAL_TYPE, "xterm-256color");
    assert_eq!(ALREADY_CONNECTED, "Already connected");
    assert_eq!(STEP_TIMEOUT_MS, 30000);
}

#[test]
fn a_failure_after_nine_good_steps_publishes_nothing() {
    let manager: SshManager<u32> = SshManager::new();
    let mut connector = begin(&manager, profile("password", Some("pw"), None), "s1");
    for _ in 0..9 {
        connector = succeed(connector);
    }
    assert_eq!(connector.current_stage(), ConnectStage::SetNonBlocking);
    assert_eq!(failure(connector, "late"), ConnectError::NonBlocking("late".to_string()));
    assert!(!manager.contains("s1"));
}

#[test]
fn credential_of_a_password_profile() {
    let p = profile("password", Some("hunter2"), None);
    assert_eq!(p.credential(), Ok(Credential::Password("hunter2".to_string())));
}

#[test]
fn credential_of_a_key_profile() {
    let p = profile("key", None, Some("/home/ada/.ssh/id_ed25519"));
    assert_eq!(p.credential(), Ok(Credential::KeyFile("/home/ada/.ssh/id_ed25519".to_string())));
}

#[test]
fn only_the_selected_credential_counts() {
    let p = profile("key", Some("hunter2"), None);
    assert_eq!(p.credential(), Err(ConnectError::MissingKeyPath));
    let q = profile("password", None, Some("/k"));
    assert_eq!(q.credential(), Err(ConnectError::MissingPassword));
    let both = profile("password", Some("pw"), Some("/k"));
    assert_eq!(both.credential(), Ok(Credential::Password("pw".to_string())));
}

#[test]
fn unknown_method_is_rejected() {
    let p = profile("kerberos", Some("x"), Some("y"));
    let e = p.credential().unwrap_err();
    assert_eq!(e, ConnectError::UnknownAuthMethod("kerberos".to_string()));
    assert!(e.is_validation());
    assert_eq!(e.message(), "Unknown authentication method: kerberos");
    let upper = profile("Password", Some("x"), None);
    assert_eq!(
        upper.credential(),
        Err(ConnectError::UnknownAuthMethod("Password".to_string()))
    );
    let empty = profile("", Some("x"), None);
    assert_eq!(empty.credential(), Err(ConnectError::UnknownAuthMethod(String::new())));
}

#[test]
fn missing_password_is_rejected_before_any_step() {
    let manager: SshManager<u32> = SshManager::new();
    match manager.connect(profile("password", None, None), "s1".to_string()) {
        ConnectStart::Rejected(e) => {
            assert_eq!(e, ConnectError::MissingPassword);
            assert!(e.is_validation());
            assert_eq!(e.message(), "Password required but not provided");
        }
        _ => panic!("the profile should be rejected"),
    }
    assert!(!manager.contains("s1"));
}

#[test]
fn missing_key_path_is_rejected_before_any_step() {
    let manager: SshManager<u32> = SshManager::new();
    match manager.connect(profile("key", None, None), "s1".to_string()) {
        ConnectStart::Rejected(e) => {
            assert_eq!(e, ConnectError::MissingKeyPath);
            assert!(e.is_validation());
            assert_eq!(e.message(), "Key path required but not provided");
        }
        _ => panic!("the profile should be rejected"),
    }
}

#[test]
fn unreachable_host_gives_a_connection_error_and_no_record() {
    let manager: SshManager<u32> = SshManager::new();
    let connector = begin(&manager, profile("password", Some("pw"), None), "s1");
    assert_eq!(connector.current_stage(), ConnectStage::Dial);
    assert_eq!(
        connector.action(),
        ConnectAction::Dial { host: "10.0.0.5".to_string(), port: 2222 }
    );
    let e = failure(connector, "Connection refused (os error 111)");
    assert_eq!(
        e,
        ConnectError::Connection {
            host: "10.0.0.5".to_string(),
            port: 2222,
            detail: "Connection refused (os error 111)".to_string(),
        }
    );
    assert!(!e.is_validation());
    assert_eq!(
        e.message(),
        "Failed to connect to 10.0.0.5:2222 - Connection refused (os error 111)"
    );
    assert!(!manager.contains("s1"));
    assert!(manager.active_sessions().is_empty());
}

#[test]
fn steps_come_in_order() {
    let manager: SshManager<u32> = SshManager::new();
    let mut connector = begin(&manager, profile("password", Some("pw"), None), "s1");
    let expected = vec![
        ConnectAction::Dial { host: "10.0.0.5".to_string(), port: 2222 },
        ConnectAction::CreateSession,
        ConnectAction::Handshake,
        ConnectAction::AuthPassword { username: "ada".to_string(), password: "pw".to_string() },
        ConnectAction::VerifyAuthenticated,
        ConnectAction::OpenChannel,
        ConnectAction::RequestPty { terminal: "xterm-256color" },
        ConnectAction::StartShell,
        ConnectAction::MergeStreams,
        ConnectAction::SetNonBlocking,
    ];
    assert_eq!(TERMINAL_TYPE, "xterm-256color");
    let mut seen = Vec::new();
    loop {
        seen.push(connector.action());
        match connector.advance(StepOutcome::Succeeded) {
            ConnectProgress::Continue(next) => connector = next,
            ConnectProgress::Ready(_) => break,
            ConnectProgress::Failed(_) => panic!("no step failed"),
        }
    }
    assert_eq!(seen, expected);
}

#[test]
fn key_profile_authenticates_with_the_key_file() {
    let manager: SshManager<u32> = SshManager::new();
    let connector =
        at_stage(&manager, profile("key", None, Some("/k/id")), ConnectStage::Authenticate);
    assert_eq!(
        connector.action(),
        ConnectAction::AuthKeyFile { username: "ada".to_string(), key_path: "/k/id".to_string() }
    );
    let e = failure(connector, "bad key");
    assert_eq!(e, ConnectError::KeyAuth("bad key".to_string()));
    assert_eq!(e.message(), "Key authentication failed: bad key");
}

#[test]
fn each_stage_has_its_error() {
    let manager: SshManager<u32> = SshManager::new();
    let cases = vec![
        (ConnectStage::CreateSession, "Failed to create SSH session: boom"),
        (ConnectStage::Handshake, "SSH handshake failed: boom"),
        (ConnectStage::Authenticate, "Password authentication failed: boom"),
        (ConnectStage::VerifyAuthenticated, "Authentication failed"),
        (ConnectStage::OpenChannel, "Failed to open channel: boom"),
        (ConnectStage::RequestPty, "Failed to request PTY: boom"),
        (ConnectStage::StartShell, "Failed to start shell: boom"),
        (ConnectStage::MergeStreams, "Failed to configure extended data: boom"),
        (ConnectStage::SetNonBlocking, "Failed to enter non-blocking mode: boom"),
    ];
    for (stage, message) in cases {
        let connector = at_stage(&manager, profile("password", Some("pw"), None), stage);
        let e = failure(connector, "boom");
        assert!(!e.is_validation());
        assert_eq!(e.message(), message);
    }
    assert!(manager.active_sessions().is_empty());
}

#[test]
fn unauthenticated_session_is_refused() {
    let manager: SshManager<u32> = SshManager::new();
    let connector = at_stage(
        &manager,
        profile("password", Some("pw"), None),
        ConnectStage::VerifyAuthenticated,
    );
    assert_eq!(connector.action(), ConnectAction::VerifyAuthenticated);
    assert_eq!(failure(connector, ""), ConnectError::NotAuthenticated);
}

#[test]
fn publish_adds_a_connected_record() {
    let mut manager: SshManager<u32> = SshManager::new();
    let connector = at_stage(
        &manager,
        profile("password", Some("pw"), None),
        ConnectStage::SetNonBlocking,
    );
    let established = match connector.advance(StepOutcome::Succeeded) {
        ConnectProgress::Ready(e) => e,
        _ => panic!("the connection should be established"),
    };
    assert!(!manager.contains("s1"));
    let (message, replaced) = manager.publish(established, 42);
    assert_eq!(message, "Connected to Build box");
    assert!(replaced.is_none());
    let found = manager.get("s1").ok().expect("record");
    assert_eq!(found.id, "s1");
    assert_eq!(found.channel, Some(42));
    assert!(found.is_connected);
    assert!(!found.streaming);
}

#[test]
fn reconnect_under_a_connected_id_is_a_no_op() {
    let mut manager: SshManager<u32> = SshManager::new();
    manager.insert(
        "s1".to_string(),
        SshSession { id: "s1".to_string(), channel: Some(5), is_connected: true, streaming: true },
    );
    match manager.connect(profile("password", Some("pw"), None), "s1".to_string()) {
        ConnectStart::AlreadyConnected => {}
        _ => panic!("nothing should be done"),
    }
    match manager.connect(profile("bogus", None, None), "s1".to_string()) {
        ConnectStart::AlreadyConnected => {}
        _ => panic!("the existing session comes first"),
    }
    let found = manager.get("s1").ok().expect("record");
    assert_eq!(found.channel, Some(5));
    assert!(found.is_connected);
    assert!(found.streaming);
}

#[test]
fn reconnect_under_a_disconnected_id_replaces_the_record() {
    let mut manager: SshManager<u32> = SshManager::new();
    manager.insert(
        "s1".to_string(),
        SshSession { id: "s1".to_string(), channel: Some(5), is_connected: false, streaming: false },
    );
    let mut connector = begin(&manager, profile("password", Some("pw"), None), "s1");
    let established = loop {
        match connector.advance(StepOutcome::Succeeded) {
            ConnectProgress::Continue(next) => connector = next,
            ConnectProgress::Ready(e) => break e,
            ConnectProgress::Failed(_) => panic!("no step failed"),
        }
    };
    let (_, replaced) = manager.publish(established, 6);
    assert_eq!(replaced.expect("stale record").channel, Some(5));
    assert_eq!(manager.get("s1").ok().unwrap().channel, Some(6));
    assert!(manager.is_connected("s1"));
}
