use e2e_protocol::framing::{frame, has_frame, unframe};
use e2e_protocol::message::{DecodeError, E2EMessage};
use e2e_protocol::protocol::{
    CONTROL_CHARACTER, ENCRYPTED_MESSAGE, HELLO_ACCEPT, HELLO_REQUEST, PUBKEY_SHARE,
    PUBKEY_SHARE_REQUEST,
};

/// Tests encoding and decoding messages.
#[test]
fn encode_decode_test() {
    let test_message = E2EMessage {
        opcode: HELLO_REQUEST,
        data: Some("Testing stuff".to_string().into_bytes()),
    };

    let encoded = test_message.encode();

    println!(r#"Encoded: "{}" ({:?})"#, encoded, encoded);

    let decoded = E2EMessage::decode(encoded).unwrap();

    assert_eq!(test_message, decoded);
}

#[test]
fn opcodes_have_their_wire_values() {
    assert_eq!(HELLO_REQUEST, 1);
    assert_eq!(HELLO_ACCEPT, 2);
    assert_eq!(PUBKEY_SHARE, 3);
    assert_eq!(PUBKEY_SHARE_REQUEST, 4);
    assert_eq!(ENCRYPTED_MESSAGE, 5);
    assert_eq!(CONTROL_CHARACTER, '⌬');
}

#[test]
fn record_without_payload_is_two_bytes() {
    let message = E2EMessage { opcode: HELLO_ACCEPT, data: None };
    assert_eq!(message.to_bytes(), vec![2u8, 0]);
}

#[test]
fn record_with_payload_has_length_prefix() {
    let message = E2EMessage { opcode: ENCRYPTED_MESSAGE, data: Some(vec![0xAA, 0xBB]) };
    assert_eq!(message.to_bytes(), vec![5u8, 1, 2, 0, 0, 0, 0, 0, 0, 0, 0xAA, 0xBB]);
}

#[test]
fn record_with_empty_payload_differs_from_none() {
    let message = E2EMessage { opcode: PUBKEY_SHARE, data: Some(vec![]) };
    let bytes = message.to_bytes();
    assert_eq!(bytes, vec![3u8, 1, 0, 0, 0, 0, 0, 0, 0, 0]);
    assert_eq!(E2EMessage::from_bytes(&bytes), Ok(message));
}

#[test]
fn record_length_prefix_is_little_endian() {
    let payload = vec![7u8; 258];
    let message = E2EMessage { opcode: ENCRYPTED_MESSAGE, data: Some(payload.clone()) };
    let bytes = message.to_bytes();
    assert_eq!(&bytes[..10], &[5u8, 1, 2, 1, 0, 0, 0, 0, 0, 0]);
    assert_eq!(&bytes[10..], &payload[..]);
    assert_eq!(E2EMessage::from_bytes(&bytes), Ok(message));
}

#[test]
fn from_bytes_reads_both_shapes() {
    assert_eq!(
        E2EMessage::from_bytes(&[4, 0]),
        Ok(E2EMessage { opcode: PUBKEY_SHARE_REQUEST, data: None })
    );
    assert_eq!(
        E2EMessage::from_bytes(&[5, 1, 3, 0, 0, 0, 0, 0, 0, 0, 9, 8, 7]),
        Ok(E2EMessage { opcode: ENCRYPTED_MESSAGE, data: Some(vec![9, 8, 7]) })
    );
}

#[test]
fn from_bytes_ignores_what_follows_the_record() {
    assert_eq!(
        E2EMessage::from_bytes(&[1, 0, 9, 9]),
        Ok(E2EMessage { opcode: HELLO_REQUEST, data: None })
    );
    assert_eq!(
        E2EMessage::from_bytes(&[3, 1, 1, 0, 0, 0, 0, 0, 0, 0, 42, 43]),
        Ok(E2EMessage { opcode: PUBKEY_SHARE, data: Some(vec![42]) })
    );
}

#[test]
fn from_bytes_keeps_unknown_opcodes() {
    assert_eq!(E2EMessage::from_bytes(&[0, 0]), Ok(E2EMessage { opcode: 0, data: None }));
    assert_eq!(E2EMessage::from_bytes(&[255, 0]), Ok(E2EMessage { opcode: 255, data: None }));
}

#[test]
fn from_bytes_rejects_truncated_records() {
    assert_eq!(E2EMessage::from_bytes(&[]), Err(DecodeError::MalformedMessage));
    assert_eq!(E2EMessage::from_bytes(&[1]), Err(DecodeError::MalformedMessage));
    assert_eq!(E2EMessage::from_bytes(&[1, 1]), Err(DecodeError::MalformedMessage));
    assert_eq!(
        E2EMessage::from_bytes(&[1, 1, 0, 0, 0, 0, 0, 0, 0]),
        Err(DecodeError::MalformedMessage)
    );
    assert_eq!(
        E2EMessage::from_bytes(&[1, 1, 5, 0, 0, 0, 0, 0, 0, 0, 1, 2]),
        Err(DecodeError::MalformedMessage)
    );
}

#[test]
fn from_bytes_rejects_a_wrong_tag() {
    assert_eq!(E2EMessage::from_bytes(&[1, 2]), Err(DecodeError::MalformedMessage));
    assert_eq!(
        E2EMessage::from_bytes(&[1, 255, 0, 0, 0, 0, 0, 0, 0, 0]),
        Err(DecodeError::MalformedMessage)
    );
}

#[test]
fn from_bytes_rejects_an_absurd_length() {
    assert_eq!(
        E2EMessage::from_bytes(&[5, 1, 255, 255, 255, 255, 255, 255, 255, 255, 1]),
        Err(DecodeError::MalformedMessage)
    );
}

#[test]
fn hello_request_has_a_fixed_text() {
    let message = E2EMessage { opcode: HELLO_REQUEST, data: None };
    assert_eq!(message.encode(), "⌬##031");
}

#[test]
fn encoded_text_starts_with_the_sentinel_and_is_printable() {
    let message = E2EMessage { opcode: ENCRYPTED_MESSAGE, data: Some((0u8..=255).collect()) };
    let text = message.encode();
    let mut chars = text.chars();
    assert_eq!(chars.next(), Some(CONTROL_CHARACTER));
    assert!(chars.all(|c| c.is_ascii_graphic()));
    assert!(E2EMessage::is_encoded(text));
}

#[test]
fn round_trip_for_every_opcode_with_and_without_payload() {
    for opcode in [0u8, 1, 2, 3, 4, 5, 6, 200, 255] {
        let bare = E2EMessage { opcode, data: None };
        assert_eq!(E2EMessage::decode(bare.encode()), Ok(bare));
        for len in [0usize, 1, 2, 3, 4, 5, 63, 64, 512] {
            let payload: Vec<u8> = (0..len).map(|i| (i * 31 + opcode as usize) as u8).collect();
            let message = E2EMessage { opcode, data: Some(payload) };
            assert_eq!(E2EMessage::decode(message.encode()), Ok(message));
        }
    }
}

#[test]
fn plain_chat_is_not_encoded() {
    assert_eq!(E2EMessage::decode("hello there".to_string()), Err(DecodeError::NotEncoded));
    assert!(!E2EMessage::is_encoded("hello there".to_string()));
}

#[test]
fn text_without_the_sentinel_in_front_is_not_encoded() {
    for text in ["", " ", "a", "##031", " ⌬##031", "x⌬", "\u{232B}##031"] {
        assert!(!E2EMessage::is_encoded(text.to_string()));
        assert_eq!(E2EMessage::decode(text.to_string()), Err(DecodeError::NotEncoded));
    }
}

#[test]
fn is_encoded_looks_at_the_first_character_only() {
    assert!(E2EMessage::is_encoded("⌬".to_string()));
    assert!(E2EMessage::is_encoded("⌬ just talking".to_string()));
    assert!(E2EMessage::is_encoded("⌬⌬".to_string()));
}

#[test]
fn sentinel_before_bad_z85_is_malformed_encoding() {
    for text in ["⌬ just talking", "⌬abc", "⌬ab cd", "⌬ééééé", "⌬#####", "⌬%nSc0%nSc1", "⌬⌬"] {
        assert_eq!(E2EMessage::decode(text.to_string()), Err(DecodeError::MalformedEncoding));
    }
}

#[test]
fn sentinel_before_z85_of_no_record_is_malformed_message() {
    assert_eq!(E2EMessage::decode("⌬".to_string()), Err(DecodeError::MalformedMessage));
    // Z85 of the single byte 1: a record that ends after its opcode.
    assert_eq!(E2EMessage::decode("⌬###01".to_string()), Err(DecodeError::MalformedMessage));
    // Z85 of the bytes 1, 2: the tag is neither 0 nor 1.
    assert_eq!(E2EMessage::decode("⌬##033".to_string()), Err(DecodeError::MalformedMessage));
}

#[test]
fn sentinel_before_arbitrary_text_never_reads_as_not_encoded() {
    let mut state: u32 = 0x2545_F491;
    for round in 0..500 {
        let mut text = String::from(CONTROL_CHARACTER);
        let len = round % 23;
        for _ in 0..len {
            state = state.wrapping_mul(1_664_525).wrapping_add(1_013_904_223);
            let c = char::from_u32(0x21 + (state >> 16) % 0x5E).unwrap();
            text.push(c);
        }
        match E2EMessage::decode(text) {
            Ok(_) => {}
            Err(error) => assert!(matches!(
                error,
                DecodeError::MalformedEncoding | DecodeError::MalformedMessage
            )),
        }
    }
}

#[test]
fn decode_leaves_its_result_independent_of_earlier_calls() {
    let good = E2EMessage { opcode: HELLO_ACCEPT, data: None }.encode();
    assert_eq!(E2EMessage::decode("⌬abc".to_string()), Err(DecodeError::MalformedEncoding));
    assert_eq!(
        E2EMessage::decode(good.clone()),
        Ok(E2EMessage { opcode: HELLO_ACCEPT, data: None })
    );
    assert_eq!(E2EMessage::decode("hello there".to_string()), Err(DecodeError::NotEncoded));
    assert_eq!(E2EMessage::decode(good), Ok(E2EMessage { opcode: HELLO_ACCEPT, data: None }));
}

#[test]
fn frame_and_unframe_are_inverse() {
    assert_eq!(frame("abc"), "⌬abc");
    assert_eq!(frame(""), "⌬");
    assert_eq!(unframe("⌬abc"), Some("abc".to_string()));
    assert_eq!(unframe("⌬"), Some(String::new()));
    assert_eq!(unframe("⌬⌬x"), Some("⌬x".to_string()));
    assert_eq!(unframe("abc"), None);
    assert_eq!(unframe(""), None);
    assert!(has_frame("⌬abc"));
    assert!(!has_frame("abc⌬"));
}

#[test]
fn messages_in_memory_are_encodable() {
    assert!(E2EMessage { opcode: HELLO_REQUEST, data: None }.is_encodable());
    assert!(E2EMessage { opcode: ENCRYPTED_MESSAGE, data: Some(vec![]) }.is_encodable());
    assert!(E2EMessage { opcode: ENCRYPTED_MESSAGE, data: Some(vec![1; 4096]) }.is_encodable());
}

#[test]
fn encoded_text_has_five_characters_for_four_bytes() {
    // a record of twelve bytes: three groups of four
    let message = E2EMessage { opcode: ENCRYPTED_MESSAGE, data: Some(vec![0xAA, 0xBB]) };
    assert_eq!(message.encode().chars().count(), 1 + 15);
}
