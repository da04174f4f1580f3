use ssh_sessions::errors::{IoFailure, SessionError};
use ssh_sessions::input::{
    resize_result, IoReport, ResizeRequest, SendProgress, SendRequest, Sender, RETRY_SLEEP_MS,
};
use ssh_sessions::registry::{SshManager, SshSession};

fn registry() -> SshManager<u32> {
    let mut manager = SshManager::new();
    manager.insert(
        "live".to_string(),
        SshSession { id: "live".to_string(), channel: Some(1), is_connected: true, streaming: false },
    );
    manager.insert(
        "bare".to_string(),
        SshSession { id: "bare".to_string(), channel: None, is_connected: true, streaming: false },
    );
    manager.insert(
        "dead".to_string(),
        SshSession { id: "dead".to_string(), channel: Some(3), is_connected: false, streaming: false },
    );
    manager
}

fn pending(sender: &Sender) -> Option<Vec<u8>> {
    match sender.request() {
        SendRequest::Write(bytes) => Some(bytes.to_vec()),
        SendRequest::Flush => None,
    }
}

fn go_on(progress: SendProgress, sleep: u64) -> Sender {
    match progress {
        SendProgress::Continue { sender, sleep_ms } => {
            assert_eq!(sleep_ms, sleep);
            sender
        }
        SendProgress::Finished(_) => panic!("the send should go on"),
    }
}

fn finished(progress: SendProgress) -> Result<(), SessionError> {
    match progress {
        SendProgress::Finished(result) => result,
        SendProgress::Continue { .. } => panic!("the send should be over"),
    }
}

#[test]
fn send_needs_a_usable_session() {
    let manager = registry();
    assert_eq!(manager.send_input("nope", "ls\n").err(), Some(SessionError::NotFound));
    assert_eq!(manager.send_input("bare", "ls\n").err(), Some(SessionError::ChannelUnavailable));
    assert_eq!(manager.send_input("dead", "ls\n").err(), Some(SessionError::NotConnected));
    assert!(manager.send_input("live", "ls\n").is_ok());
}

#[test]
fn send_writes_the_utf8_bytes() {
    let manager = registry();
    let sender = manager.send_input("live", "é\n").expect("send");
    assert_eq!(pending(&sender), Some(vec![0xc3, 0xa9, b'\n']));
}

#[test]
fn partial_writes_move_on_in_order() {
    let sender = Sender::new(b"hello".to_vec());
    assert_eq!(pending(&sender), Some(b"hello".to_vec()));
    let sender = go_on(sender.report(IoReport::Wrote(2)), 0);
    assert_eq!(pending(&sender), Some(b"llo".to_vec()));
    let sender = go_on(sender.report(IoReport::Failed(IoFailure::WouldBlock)), RETRY_SLEEP_MS);
    assert_eq!(pending(&sender), Some(b"llo".to_vec()));
    let sender = go_on(sender.report(IoReport::Failed(IoFailure::TimedOut)), 1);
    assert_eq!(pending(&sender), Some(b"llo".to_vec()));
    let sender = go_on(sender.report(IoReport::Wrote(3)), 0);
    assert_eq!(pending(&sender), None);
    assert_eq!(finished(sender.report(IoReport::Flushed)), Ok(()));
}

#[test]
fn a_write_of_more_than_is_pending_ends_at_the_end() {
    let sender = Sender::new(b"abc".to_vec());
    let sender = go_on(sender.report(IoReport::Wrote(usize::MAX)), 0);
    assert_eq!(pending(&sender), None);
}

#[test]
fn empty_input_is_only_flushed() {
    let sender = Sender::new(Vec::new());
    assert_eq!(pending(&sender), None);
    let sender = go_on(sender.report(IoReport::Wrote(0)), 0);
    assert_eq!(finished(sender.report(IoReport::Flushed)), Ok(()));
}

#[test]
fn a_write_of_nothing_is_an_error() {
    let sender = Sender::new(b"abc".to_vec());
    assert_eq!(finished(sender.report(IoReport::Wrote(0))), Err(SessionError::WriteZero));
}

#[test]
fn a_stray_flush_report_changes_nothing() {
    let sender = Sender::new(b"abc".to_vec());
    let sender = go_on(sender.report(IoReport::Flushed), 0);
    assert_eq!(pending(&sender), Some(b"abc".to_vec()));
}

#[test]
fn fatal_failures_carry_the_operation() {
    let sender = Sender::new(b"abc".to_vec());
    assert_eq!(
        finished(sender.report(IoReport::Failed(IoFailure::Other("broken pipe".to_string())))),
        Err(SessionError::Write("broken pipe".to_string()))
    );
    let sender = go_on(Sender::new(b"abc".to_vec()).report(IoReport::Wrote(3)), 0);
    let sender = go_on(sender.report(IoReport::Failed(IoFailure::WouldBlock)), 1);
    assert_eq!(
        finished(sender.report(IoReport::Failed(IoFailure::Other("reset".to_string())))),
        Err(SessionError::Flush("reset".to_string()))
    );
}

#[test]
fn transient_failures_are_told_apart() {
    assert!(IoFailure::WouldBlock.is_transient());
    assert!(IoFailure::TimedOut.is_transient());
    assert!(!IoFailure::Other(String::new()).is_transient());
}

#[test]
fn resize_needs_a_usable_session() {
    let manager = registry();
    assert_eq!(manager.resize_pty("live", 120, 40), Ok(ResizeRequest { cols: 120, rows: 40 }));
    assert_eq!(manager.resize_pty("live", 0, u32::MAX), Ok(ResizeRequest { cols: 0, rows: u32::MAX }));
    assert_eq!(manager.resize_pty("nope", 80, 24), Err(SessionError::NotFound));
    assert_eq!(manager.resize_pty("bare", 80, 24), Err(SessionError::ChannelUnavailable));
    assert_eq!(manager.resize_pty("dead", 80, 24), Err(SessionError::NotConnected));
}

#[test]
fn resize_failure_is_reported() {
    assert_eq!(resize_result(Ok(())), Ok(()));
    let failed = resize_result(Err("channel closed".to_string()));
    assert_eq!(failed, Err(SessionError::Resize("channel closed".to_string())));
    assert_eq!(failed.unwrap_err().message(), "Failed to resize PTY: channel closed");
}
