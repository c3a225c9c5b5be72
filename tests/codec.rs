use music_client::codec::{build_song_message, decode, encode, ProtocolError, HEADER_BYTES, SIGNATURE};

#[test]
fn encode_song_scenario() {
    let bytes = encode(b"song.mp3", &[0x01, 0x02, 0x03]);
    let expected: Vec<u8> = vec![
        0x66, 0, 0, 0, 8, b's', b'o', b'n', b'g', b'.', b'm', b'p', b'3', 0, 0, 0, 3, 0x01, 0x02,
        0x03,
    ];
    assert_eq!(bytes, expected);
    let (frame, used) = decode(&bytes).unwrap();
    assert_eq!(frame.name, b"song.mp3".to_vec());
    assert_eq!(frame.payload, vec![0x01, 0x02, 0x03]);
    assert_eq!(used, bytes.len());
}

#[test]
fn signature_is_ascii_f() {
    assert_eq!(SIGNATURE, b'f');
    assert_eq!(HEADER_BYTES, 9);
}

#[test]
fn encode_length_formula() {
    let name = vec![b'a'; 300];
    let payload = vec![7u8; 70000];
    let bytes = encode(&name, &payload);
    assert_eq!(bytes.len(), 1 + 4 + 300 + 4 + 70000);
    assert_eq!(&bytes[1..5], &[0, 0, 0x01, 0x2c]);
    assert_eq!(&bytes[305..309], &[0, 0x01, 0x11, 0x70]);
}

#[test]
fn round_trip_leaves_next_frame() {
    let mut stream = encode(b"a.wav", b"payload");
    let second = encode(b"b", b"");
    stream.extend_from_slice(&second);
    let (first, used) = decode(&stream).unwrap();
    assert_eq!(first.name, b"a.wav".to_vec());
    assert_eq!(first.payload, b"payload".to_vec());
    assert_eq!(used, 9 + 5 + 7);
    let (next, used2) = decode(&stream[used..]).unwrap();
    assert_eq!(next.name, b"b".to_vec());
    assert_eq!(next.payload, Vec::<u8>::new());
    assert_eq!(used2, 10);
}

#[test]
fn round_trip_empty_fields() {
    let bytes = encode(b"", b"");
    assert_eq!(bytes, vec![0x66, 0, 0, 0, 0, 0, 0, 0, 0]);
    let (frame, used) = decode(&bytes).unwrap();
    assert!(frame.name.is_empty());
    assert!(frame.payload.is_empty());
    assert_eq!(used, 9);
}

#[test]
fn every_proper_prefix_is_truncated() {
    let bytes = encode(b"song.mp3", &[0x01, 0x02, 0x03]);
    for k in 0..bytes.len() {
        assert!(matches!(decode(&bytes[..k]), Err(ProtocolError::Truncated)), "prefix {}", k);
    }
}

#[test]
fn bad_signature_is_refused() {
    let mut bytes = encode(b"x", b"y");
    bytes[0] = b'g';
    assert!(matches!(decode(&bytes), Err(ProtocolError::BadSignature)));
    assert!(matches!(decode(&[0u8]), Err(ProtocolError::BadSignature)));
}

#[test]
fn huge_declared_length_is_truncated() {
    let bytes = vec![0x66, 0xff, 0xff, 0xff, 0xff, 1, 2, 3];
    assert!(matches!(decode(&bytes), Err(ProtocolError::Truncated)));
}

#[test]
fn song_message_uses_path_bytes() {
    let msg = build_song_message("./songs/é.mp3", &[9, 8]).unwrap();
    let (frame, _) = decode(&msg).unwrap();
    assert_eq!(frame.name, "./songs/é.mp3".as_bytes().to_vec());
    assert_eq!(frame.payload, vec![9, 8]);
    assert_eq!(msg[4] as usize, "./songs/é.mp3".len());
}
