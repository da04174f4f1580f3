use std::sync::Arc;

use parking_lot::Mutex;
use ssh_sessions::connect::{ConnectProgress, ConnectStart, Connector, StepOutcome};
use ssh_sessions::errors::SessionError;
use ssh_sessions::input::{IoReport, SendProgress, SendRequest};
use ssh_sessions::profile::SshProfile;
use ssh_sessions::registry::{SshManager, SshSession};

/// A channel that records what reaches it and takes a few bytes per write.
struct Tape {
    written: Vec<u8>,
    resizes: Vec<(u32, u32)>,
    window: usize,
}

fn send_all(shared: &Mutex<SshManager<Tape>>, id: &str, text: &str) -> Result<(), SessionError> {
    let mut sessions = shared.lock();
    let mut sender = sessions.send_input(id, text)?;
    loop {
        let report = {
            let tape = sessions.get_mut(id)?.channel.as_mut().ok_or(SessionError::ChannelUnavailable)?;
            match sender.request() {
                SendRequest::Write(bytes) => {
                    let n = bytes.len().min(tape.window);
                    tape.written.extend_from_slice(&bytes[..n]);
                    IoReport::Wrote(n)
                }
                SendRequest::Flush => IoReport::Flushed,
            }
        };
        match sender.report(report) {
            SendProgress::Continue { sender: next, .. } => sender = next,
            SendProgress::Finished(result) => return result,
        }
    }
}

fn resize(shared: &Mutex<SshManager<Tape>>, id: &str, cols: u32, rows: u32) -> Result<(), SessionError> {
    let mut sessions = shared.lock();
    let request = sessions.resize_pty(id, cols, rows)?;
    let tape = sessions.get_mut(id)?.channel.as_mut().ok_or(SessionError::ChannelUnavailable)?;
    tape.resizes.push((request.cols, request.rows));
    Ok(())
}

#[test]
fn concurrent_sends_and_resizes_serialize() {
    let workers = 8u32;
    let rounds = 50u32;
    let shared = Arc::new(Mutex::new(SshManager::new()));
    shared.lock().insert(
        "s1".to_string(),
        SshSession {
            id: "s1".to_string(),
            channel: Some(Tape { written: Vec::new(), resizes: Vec::new(), window: 3 }),
            is_connected: true,
            streaming: false,
        },
    );
    let runtime = tokio::runtime::Builder::new_current_thread().build().unwrap();
    runtime.block_on(async {
        let mut handles = Vec::new();
        for worker in 0..workers {
            let shared = Arc::clone(&shared);
            handles.push(tokio::task::spawn_blocking(move || {
                for round in 0..rounds {
                    send_all(&shared, "s1", &format!("<{}:{}>", worker, round)).unwrap();
                    resize(&shared, "s1", worker, round).unwrap();
                }
            }));
        }
        for handle in handles {
            handle.await.unwrap();
        }
    });
    let released = shared.lock().disconnect("s1").expect("record");
    let tape = released.channel.expect("channel");
    let text = String::from_utf8(tape.written).expect("whole lines only");
    let mut next_round = vec![0u32; workers as usize];
    let mut lines = 0;
    for line in text.split_terminator('>') {
        let body = line.strip_prefix('<').expect("each send is written in one piece");
        let (worker, round) = body.split_once(':').expect("each send is written in one piece");
        let worker: usize = worker.parse().unwrap();
        let round: u32 = round.parse().unwrap();
        assert_eq!(round, next_round[worker]);
        next_round[worker] += 1;
        lines += 1;
    }
    assert_eq!(lines, workers * rounds);
    assert_eq!(tape.resizes.len(), (workers * rounds) as usize);
    let mut next_resize = vec![0u32; workers as usize];
    for (worker, round) in tape.resizes {
        assert_eq!(round, next_resize[worker as usize]);
        next_resize[worker as usize] += 1;
    }
}

fn attempt(shared: &Mutex<SshManager<Tape>>, id: &str) -> Connector {
    let profile = SshProfile {
        id: id.to_string(),
        name: format!("host of {}", id),
        host: "localhost".to_string(),
        port: 22,
        username: "u".to_string(),
        auth_method: "key".to_string(),
        password: None,
        key_path: Some("/k".to_string()),
    };
    match shared.lock().connect(profile, id.to_string()) {
        ConnectStart::Proceed(connector) => connector,
        _ => panic!("the attempt should begin"),
    }
}

#[test]
fn attempts_under_two_ids_go_on_side_by_side() {
    let shared = Mutex::new(SshManager::new());
    let mut first = Some(attempt(&shared, "a"));
    let mut second = Some(attempt(&shared, "b"));
    let mut messages = Vec::new();
    while first.is_some() || second.is_some() {
        for slot in [&mut first, &mut second] {
            if let Some(connector) = slot.take() {
                assert!(!shared.is_locked());
                match connector.advance(StepOutcome::Succeeded) {
                    ConnectProgress::Continue(next) => *slot = Some(next),
                    ConnectProgress::Ready(established) => {
                        let tape = Tape { written: Vec::new(), resizes: Vec::new(), window: 1 };
                        messages.push(shared.lock().publish(established, tape).0);
                    }
                    ConnectProgress::Failed(e) => panic!("{}", e.message()),
                }
            }
        }
    }
    assert_eq!(messages, vec!["Connected to host of a".to_string(), "Connected to host of b".to_string()]);
    let mut ids = shared.lock().active_sessions();
    ids.sort();
    assert_eq!(ids, vec!["a".to_string(), "b".to_string()]);
}
