use music_client::events::{
    classify_probe, classify_terminal, ingest_on_read, ingest_on_send, pad_update, Event,
    IngestAction, KeyCode, KeyInput, MouseInput, Multiplexer, Probe, ReadOutcome, Readiness,
    SendOutcome, TerminalInput, CHUNK_SIZE, NET_BUFFER_LEN, TICK_RATE_MS,
};

fn key(code: KeyCode, pressed: bool) -> KeyInput {
    KeyInput { code, ctrl: false, pressed }
}

#[test]
fn constants() {
    assert_eq!(NET_BUFFER_LEN, 1024);
    assert_eq!(CHUNK_SIZE, 10000);
    assert_eq!(TICK_RATE_MS, 250);
}

#[test]
fn pad_update_zero_fills() {
    let p = pad_update(&[1, 2, 3]);
    assert_eq!(p.len(), 1024);
    assert_eq!(&p[..3], &[1, 2, 3]);
    assert!(p[3..].iter().all(|&b| b == 0));
    let long = vec![5u8; 2000];
    assert_eq!(pad_update(&long), vec![5u8; 1024]);
}

#[test]
fn enter_press_triggers_upload() {
    let r = classify_terminal(TerminalInput::Key(key(KeyCode::Enter, true)));
    assert_eq!(r, Some(Event::FileTransfer));
}

#[test]
fn other_press_is_key_event() {
    let k = key(KeyCode::Char('x'), true);
    assert_eq!(classify_terminal(TerminalInput::Key(k)), Some(Event::Key(k)));
}

#[test]
fn release_focus_and_paste_are_ignored() {
    assert_eq!(classify_terminal(TerminalInput::Key(key(KeyCode::Enter, false))), None);
    assert_eq!(classify_terminal(TerminalInput::FocusGained), None);
    assert_eq!(classify_terminal(TerminalInput::FocusLost), None);
    assert_eq!(classify_terminal(TerminalInput::Paste("hi".to_string())), None);
}

#[test]
fn mouse_and_resize_pass_on() {
    let m = MouseInput { column: 3, row: 4 };
    assert_eq!(classify_terminal(TerminalInput::Mouse(m)), Some(Event::Mouse(m)));
    assert_eq!(classify_terminal(TerminalInput::Resize(80, 24)), Some(Event::Resize(80, 24)));
}

#[test]
fn probe_outcomes() {
    assert_eq!(classify_probe(Probe::Read(vec![])), None);
    assert_eq!(classify_probe(Probe::WouldBlock), None);
    assert_eq!(classify_probe(Probe::Failed), None);
    match classify_probe(Probe::Read(b"{}".to_vec())) {
        Some(Event::Net(buf)) => {
            assert_eq!(buf.len(), 1024);
            assert_eq!(&buf[..2], b"{}");
            assert_eq!(buf[2], 0);
        }
        other => panic!("unexpected {:?}", other),
    }
}

#[test]
fn multiplexer_ticks_while_running() {
    let mut mux = Multiplexer::new();
    assert!(mux.is_running());
    assert_eq!(mux.step(false, Readiness::TimerElapsed), Some(Event::Tick));
    assert!(mux.is_running());
}

#[test]
fn shutdown_wins_and_is_final() {
    let mut mux = Multiplexer::new();
    assert_eq!(mux.step(true, Readiness::TimerElapsed), None);
    assert!(!mux.is_running());
    assert_eq!(mux.step(false, Readiness::TimerElapsed), None);
    assert_eq!(mux.step(false, Readiness::Socket(Probe::Read(vec![1]))), None);
    assert!(!mux.is_running());
}

#[test]
fn ingest_read_outcomes() {
    let buffer = vec![1u8, 2, 3, 4];
    assert_eq!(ingest_on_read(false, ReadOutcome::Read(2), &buffer), IngestAction::Send(vec![1, 2]));
    assert_eq!(ingest_on_read(false, ReadOutcome::Read(0), &buffer), IngestAction::Stop);
    assert_eq!(ingest_on_read(false, ReadOutcome::WouldBlock, &buffer), IngestAction::ReadAgain);
    assert_eq!(ingest_on_read(false, ReadOutcome::Failed, &buffer), IngestAction::Stop);
    assert_eq!(ingest_on_read(true, ReadOutcome::Read(2), &buffer), IngestAction::Stop);
}

#[test]
fn full_channel_keeps_the_chunk() {
    assert_eq!(ingest_on_send(false, SendOutcome::Full(vec![7, 8])), IngestAction::Send(vec![7, 8]));
    assert_eq!(ingest_on_send(false, SendOutcome::Sent), IngestAction::ReadAgain);
    assert_eq!(ingest_on_send(false, SendOutcome::Closed), IngestAction::Stop);
    assert_eq!(ingest_on_send(true, SendOutcome::Full(vec![7])), IngestAction::Stop);
}
