use echo_server::handler::{Action, ConnectionHandler, Event, HandlerError, Stage};
use echo_server::BUF_SIZE;

fn expect_write(a: Action) -> Vec<u8> {
    match a {
        Action::Write(b) => b,
        other => panic!("expected a write, got {:?}", other),
    }
}

fn expect_log(a: Action) -> String {
    match a {
        Action::Log(s) => s,
        other => panic!("expected a log entry, got {:?}", other),
    }
}

fn expect_finish(a: Action) -> Result<(), HandlerError> {
    match a {
        Action::Finish(r) => r,
        other => panic!("expected the end, got {:?}", other),
    }
}

/// Runs one full cycle on `chunk` and returns what was written and logged.
fn cycle(h: &mut ConnectionHandler, chunk: Vec<u8>) -> (Vec<u8>, String) {
    let written = expect_write(h.step(Event::Received(chunk)));
    let logged = expect_log(h.step(Event::Echoed));
    assert!(matches!(h.step(Event::Logged), Action::Read));
    (written, logged)
}

#[test]
fn ping_is_echoed_and_logged() {
    let mut h = ConnectionHandler::new();
    assert_eq!(h.stage(), Stage::Reading);
    let (written, logged) = cycle(&mut h, b"ping".to_vec());
    assert_eq!(written, b"ping".to_vec());
    assert_eq!(logged, "ping");
    assert_eq!(h.stage(), Stage::Reading);
}

#[test]
fn long_message_is_echoed_in_two_cycles() {
    let message = vec![b'A'; 2000];
    let mut h = ConnectionHandler::new();
    let mut echoed: Vec<u8> = Vec::new();
    let mut logs: Vec<String> = Vec::new();
    for chunk in message.chunks(BUF_SIZE) {
        let (written, logged) = cycle(&mut h, chunk.to_vec());
        assert_eq!(written, chunk.to_vec());
        echoed.extend_from_slice(&written);
        logs.push(logged);
    }
    assert_eq!(echoed, message);
    assert_eq!(logs.len(), 2);
    assert_eq!(logs[0], "A".repeat(1024));
    assert_eq!(logs[1], "A".repeat(976));
}

#[test]
fn any_bytes_are_echoed_unchanged() {
    let bytes: Vec<u8> = (0..=255u8).collect();
    let mut h = ConnectionHandler::new();
    assert_eq!(expect_write(h.step(Event::Received(bytes.clone()))), bytes);
}

#[test]
fn full_buffer_is_echoed() {
    let bytes = vec![b'z'; BUF_SIZE];
    let mut h = ConnectionHandler::new();
    let (written, logged) = cycle(&mut h, bytes.clone());
    assert_eq!(written, bytes);
    assert_eq!(logged.len(), BUF_SIZE);
}

#[test]
fn multibyte_text_is_logged_as_text() {
    let mut h = ConnectionHandler::new();
    let (written, logged) = cycle(&mut h, "héllo ✓".as_bytes().to_vec());
    assert_eq!(written, "héllo ✓".as_bytes().to_vec());
    assert_eq!(logged, "héllo ✓");
}

#[test]
fn close_finishes_quietly() {
    let mut h = ConnectionHandler::new();
    cycle(&mut h, b"hi".to_vec());
    assert_eq!(expect_finish(h.step(Event::Received(Vec::new()))), Ok(()));
    assert_eq!(h.stage(), Stage::Finished);
    assert_eq!(expect_finish(h.step(Event::Received(b"late".to_vec()))), Ok(()));
    assert_eq!(expect_finish(h.step(Event::Echoed)), Ok(()));
}

#[test]
fn invalid_utf8_is_echoed_then_fails_decoding() {
    let mut h = ConnectionHandler::new();
    let bad = vec![0xff, 0xfe, b'a'];
    assert_eq!(expect_write(h.step(Event::Received(bad.clone()))), bad);
    assert_eq!(expect_finish(h.step(Event::Echoed)), Err(HandlerError::Decode));
    assert_eq!(h.stage(), Stage::Finished);
}

#[test]
fn read_failure_is_io_error() {
    let mut h = ConnectionHandler::new();
    assert_eq!(expect_finish(h.step(Event::ReadFailed)), Err(HandlerError::Io));
}

#[test]
fn write_failure_is_io_error_and_nothing_is_logged() {
    let mut h = ConnectionHandler::new();
    expect_write(h.step(Event::Received(b"x".to_vec())));
    assert_eq!(expect_finish(h.step(Event::WriteFailed)), Err(HandlerError::Io));
    assert_eq!(expect_finish(h.step(Event::Echoed)), Err(HandlerError::Io));
}

#[test]
fn closed_log_queue_ends_the_connection() {
    let mut h = ConnectionHandler::new();
    expect_write(h.step(Event::Received(b"x".to_vec())));
    expect_log(h.step(Event::Echoed));
    assert_eq!(expect_finish(h.step(Event::LogFailed)), Err(HandlerError::LogClosed));
}

#[test]
fn accepts_only_answers_to_the_last_action() {
    let mut h = ConnectionHandler::new();
    assert!(h.accepts(&Event::Received(vec![1; BUF_SIZE])));
    assert!(!h.accepts(&Event::Received(vec![1; BUF_SIZE + 1])));
    assert!(!h.accepts(&Event::Echoed));
    expect_write(h.step(Event::Received(b"x".to_vec())));
    assert!(h.accepts(&Event::Echoed));
    assert!(h.accepts(&Event::WriteFailed));
    assert!(!h.accepts(&Event::Logged));
    expect_log(h.step(Event::Echoed));
    assert!(h.accepts(&Event::Logged));
    assert!(!h.accepts(&Event::ReadFailed));
    h.step(Event::LogFailed);
    assert!(h.accepts(&Event::Received(Vec::new())));
}

#[test]
fn session_logs_each_chunk_once_in_order() {
    let chunks: Vec<Vec<u8>> = vec![b"one".to_vec(), b"two".to_vec(), vec![b'x'; BUF_SIZE], b"3".to_vec()];
    let mut h = ConnectionHandler::new();
    let mut written: Vec<u8> = Vec::new();
    let mut logs: Vec<String> = Vec::new();
    for chunk in chunks.iter() {
        let (w, l) = cycle(&mut h, chunk.clone());
        written.extend_from_slice(&w);
        logs.push(l);
    }
    assert_eq!(expect_finish(h.step(Event::Received(Vec::new()))), Ok(()));
    assert_eq!(written, chunks.concat());
    let expected: Vec<String> = chunks.iter().map(|c| String::from_utf8(c.clone()).unwrap()).collect();
    assert_eq!(logs, expected);
}
