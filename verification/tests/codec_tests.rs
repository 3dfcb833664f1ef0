use minimal::codec::{encode, CodecError, MessageBody, MinimalMessage};
use minimal::identity::PeerId;

fn pid(tag: u8) -> PeerId {
    let mut bytes = [0u8; 32];
    bytes[0] = tag;
    bytes[31] = 0xee;
    PeerId::from_bytes(bytes)
}

#[test]
fn round_trip_about_me() {
    let body = MessageBody::AboutMe { from: pid(1), name: b"Bea".to_vec() };
    let bytes = encode(body);
    match MinimalMessage::from_bytes(&bytes).unwrap() {
        MessageBody::AboutMe { from, name } => {
            assert!(from.eq_id(&pid(1)));
            assert_eq!(name, b"Bea".to_vec());
        }
        _ => panic!("wrong variant"),
    }
}

#[test]
fn round_trip_chat() {
    let body = MessageBody::Chat { from: pid(2), text: b"hello world\n".to_vec() };
    let bytes = encode(body);
    match MinimalMessage::from_bytes(&bytes).unwrap() {
        MessageBody::Chat { from, text } => {
            assert!(from.eq_id(&pid(2)));
            assert_eq!(text, b"hello world\n".to_vec());
        }
        _ => panic!("wrong variant"),
    }
}

#[test]
fn round_trip_chat_empty_text() {
    let body = MessageBody::Chat { from: pid(9), text: Vec::new() };
    let bytes = encode(body);
    match MinimalMessage::from_bytes(&bytes).unwrap() {
        MessageBody::Chat { from, text } => {
            assert!(from.eq_id(&pid(9)));
            assert!(text.is_empty());
        }
        _ => panic!("wrong variant"),
    }
}

#[test]
fn round_trip_game_request() {
    let body = MessageBody::GameRequest { from: pid(3) };
    let bytes = encode(body);
    match MinimalMessage::from_bytes(&bytes).unwrap() {
        MessageBody::GameRequest { from } => assert!(from.eq_id(&pid(3))),
        _ => panic!("wrong variant"),
    }
}

#[test]
fn round_trip_game_start() {
    let body = MessageBody::GameStart {
        from: pid(4),
        orig_sender: pid(5),
        game_id: 123456789u64,
    };
    let bytes = encode(body);
    match MinimalMessage::from_bytes(&bytes).unwrap() {
        MessageBody::GameStart { from, orig_sender, game_id } => {
            assert!(from.eq_id(&pid(4)));
            assert!(orig_sender.eq_id(&pid(5)));
            assert_eq!(game_id, 123456789u64);
        }
        _ => panic!("wrong variant"),
    }
}

#[test]
fn round_trip_game_aborted() {
    let bytes = encode(MessageBody::GameAborted);
    assert!(matches!(
        MinimalMessage::from_bytes(&bytes).unwrap(),
        MessageBody::GameAborted
    ));
}

#[test]
fn nonce_varies_the_bytes_but_not_the_body() {
    let a = encode(MessageBody::GameAborted);
    let b = encode(MessageBody::GameAborted);
    // 17 bytes each: one tag byte and the 16-byte nonce
    assert_eq!(a.len(), 17);
    assert_eq!(b.len(), 17);
    assert_eq!(a[0], 5);
    // the random nonce makes the serialized forms of identical bodies differ
    assert_ne!(a, b);
    assert!(matches!(
        MinimalMessage::from_bytes(&a).unwrap(),
        MessageBody::GameAborted
    ));
    assert!(matches!(
        MinimalMessage::from_bytes(&b).unwrap(),
        MessageBody::GameAborted
    ));
}

#[test]
fn malformed_empty() {
    assert_eq!(
        MinimalMessage::from_bytes(&[]).unwrap_err(),
        CodecError::MalformedMessage
    );
}

#[test]
fn malformed_too_short() {
    let bytes = vec![5u8; 16];
    assert_eq!(
        MinimalMessage::from_bytes(&bytes).unwrap_err(),
        CodecError::MalformedMessage
    );
}

#[test]
fn malformed_unknown_tag() {
    let bytes = vec![0u8; 17];
    assert_eq!(
        MinimalMessage::from_bytes(&bytes).unwrap_err(),
        CodecError::MalformedMessage
    );
}

#[test]
fn malformed_bad_length_field() {
    let body = MessageBody::Chat { from: pid(7), text: b"abc".to_vec() };
    let mut bytes = encode(body);
    // corrupt the length prefix: claim one more byte than is present
    bytes[33] = bytes[33].wrapping_add(1);
    assert_eq!(
        MinimalMessage::from_bytes(&bytes).unwrap_err(),
        CodecError::MalformedMessage
    );
}

#[test]
fn malformed_truncated_game_start() {
    let body = MessageBody::GameStart { from: pid(4), orig_sender: pid(5), game_id: 1 };
    let mut bytes = encode(body);
    bytes.pop();
    assert_eq!(
        MinimalMessage::from_bytes(&bytes).unwrap_err(),
        CodecError::MalformedMessage
    );
}

#[test]
fn envelope_new_keeps_the_body() {
    let message = MinimalMessage::new(MessageBody::GameRequest { from: pid(8) });
    let bytes = message.to_vec();
    match MinimalMessage::from_bytes(&bytes).unwrap() {
        MessageBody::GameRequest { from } => assert!(from.eq_id(&pid(8))),
        _ => panic!("wrong variant"),
    }
}
