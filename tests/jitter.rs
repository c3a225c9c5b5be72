use music_client::jitter::{JitterBuffer, PlaybackAction, DEFAULT_MIN_FILL};

#[test]
fn releases_in_arrival_order_with_threshold_two() {
    let mut buf = JitterBuffer::new(DEFAULT_MIN_FILL);
    assert_eq!(buf.push(vec![b'A']), None);
    assert_eq!(buf.push(vec![b'B']), Some(vec![b'A']));
    assert_eq!(buf.push(vec![b'C']), Some(vec![b'B']));
    assert_eq!(buf.push(vec![b'D']), Some(vec![b'C']));
    assert_eq!(buf.len(), 1);
}

#[test]
fn threshold_one_releases_at_once() {
    let mut buf = JitterBuffer::new(1);
    assert_eq!(buf.push(vec![1]), Some(vec![1]));
    assert_eq!(buf.push(vec![2]), Some(vec![2]));
    assert_eq!(buf.len(), 0);
}

#[test]
fn threshold_three_holds_two() {
    let mut buf = JitterBuffer::new(3);
    let mut out = Vec::new();
    for i in 0..6u8 {
        if let Some(c) = buf.push(vec![i]) {
            out.push(c[0]);
        }
    }
    assert_eq!(out, vec![0, 1, 2, 3]);
    assert_eq!(buf.len(), 2);
}

#[test]
fn consumer_stops_on_closed_channel() {
    let mut buf = JitterBuffer::new(2);
    assert!(matches!(buf.on_receive(Some(vec![1])), PlaybackAction::Wait));
    match buf.on_receive(Some(vec![2])) {
        PlaybackAction::Play(c) => assert_eq!(c, vec![1]),
        _ => panic!("expected a chunk to play"),
    }
    assert!(matches!(buf.on_receive(None), PlaybackAction::Stop));
    assert_eq!(buf.len(), 1);
}
