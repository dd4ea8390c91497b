use electrode::codec::{decode, encode, FrameError, Packet};

#[test]
fn encode_camera_frame() {
    // An event with id "camera/frame" and payload [1, 2, 3] goes out as the
    // frame [0x0C, "camera/frame", 0x01, 0x02, 0x03].
    let topic = b"camera/frame".to_vec();
    let payload = vec![0x01u8, 0x02, 0x03];
    let frame = encode(&topic, &payload).unwrap();
    let mut expected = vec![0x0Cu8];
    expected.extend_from_slice(b"camera/frame");
    expected.extend_from_slice(&[0x01, 0x02, 0x03]);
    assert_eq!(frame, expected);
}

#[test]
fn encode_empty_payload() {
    let frame = encode(&b"t".to_vec(), &Vec::new()).unwrap();
    assert_eq!(frame, vec![1u8, b't']);
}

#[test]
fn encode_rejects_empty_topic() {
    let r = encode(&Vec::new(), &vec![1u8, 2]);
    assert!(matches!(r, Err(FrameError::TopicEmpty)));
}

#[test]
fn encode_rejects_long_topic() {
    let topic = vec![b'a'; 256];
    let r = encode(&topic, &Vec::new());
    assert!(matches!(r, Err(FrameError::TopicTooLong)));
    // 255 bytes still fits the one-byte length prefix.
    let topic = vec![b'a'; 255];
    let frame = encode(&topic, &vec![9u8]).unwrap();
    assert_eq!(frame.len(), 1 + 255 + 1);
    assert_eq!(frame[0], 255);
}

#[test]
fn decode_round_trip() {
    let topic = b"camera/frame".to_vec();
    let payload = vec![0x01u8, 0x02, 0x03];
    let frame = encode(&topic, &payload).unwrap();
    let packet: Packet = decode(&frame).unwrap();
    assert_eq!(packet.topic, topic);
    assert_eq!(packet.payload, payload);
}

#[test]
fn decode_round_trip_empty_payload() {
    let topic = "some/nested/topic".as_bytes().to_vec();
    let frame = encode(&topic, &Vec::new()).unwrap();
    let packet = decode(&frame).unwrap();
    assert_eq!(packet.topic, topic);
    assert_eq!(packet.payload, Vec::<u8>::new());
}

#[test]
fn decode_rejects_empty_input() {
    assert!(matches!(decode(&Vec::new()), Err(FrameError::MalformedFrame)));
}

#[test]
fn decode_rejects_zero_length_topic() {
    assert!(matches!(decode(&vec![0u8, 1, 2]), Err(FrameError::MalformedFrame)));
}

#[test]
fn decode_rejects_truncated_frame() {
    // Length byte says 5, but only 3 topic bytes follow.
    assert!(matches!(decode(&vec![5u8, b'a', b'b', b'c']), Err(FrameError::MalformedFrame)));
}

#[test]
fn decode_rejects_invalid_utf8_topic() {
    // 0xFF is never valid UTF-8.
    assert!(matches!(decode(&vec![2u8, 0xFF, 0xFE, 1, 2]), Err(FrameError::MalformedFrame)));
}

#[test]
fn decode_never_panics_on_garbage() {
    // Truncated and random-looking inputs always come back as a packet or
    // a malformed-frame error.
    let cases: Vec<Vec<u8>> = vec![
        vec![],
        vec![255],
        vec![1],
        vec![7, 0, 1, 2],
        vec![0xFF; 64],
        vec![2, b'o', b'k'],
        (0u8..=255).collect(),
    ];
    for bytes in cases {
        match decode(&bytes) {
            Ok(p) => {
                assert!(!p.topic.is_empty());
                assert!(p.topic.len() <= 255);
            }
            Err(e) => assert!(matches!(e, FrameError::MalformedFrame)),
        }
    }
}
