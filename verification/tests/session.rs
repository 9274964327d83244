use e2e_protocol::encryptor::MessageEncryptor;
use e2e_protocol::message::{DecodeError, E2EMessage};
use e2e_protocol::protocol::{
    ENCRYPTED_MESSAGE, HELLO_ACCEPT, HELLO_REQUEST, PUBKEY_SHARE, PUBKEY_SHARE_REQUEST,
};
use e2e_protocol::session::Inbound;

fn peer() -> MessageEncryptor {
    MessageEncryptor::with_key_size(512).unwrap()
}

fn text_of(opcode: u8, data: Option<Vec<u8>>) -> String {
    E2EMessage { opcode, data }.encode()
}

#[test]
fn own_text_is_an_echo_whatever_it_holds() {
    let mut keys = peer();
    let other = peer();
    let share = text_of(PUBKEY_SHARE, Some(other.self_pubkey().to_der()));
    assert_eq!(keys.receive(true, share), Inbound::OwnEcho);
    assert!(keys.peer_pubkey().is_none());
    assert_eq!(keys.receive(true, "hello there".to_string()), Inbound::OwnEcho);
}

#[test]
fn conversation_is_chat() {
    let mut keys = peer();
    assert_eq!(keys.receive(false, "hello there".to_string()), Inbound::Chat);
    assert_eq!(keys.receive(false, String::new()), Inbound::Chat);
    assert!(keys.peer_pubkey().is_none());
}

#[test]
fn sentinel_without_a_message_is_malformed() {
    let mut keys = peer();
    assert_eq!(
        keys.receive(false, "⌬ not a message".to_string()),
        Inbound::Malformed(DecodeError::MalformedEncoding)
    );
    assert_eq!(
        keys.receive(false, "⌬".to_string()),
        Inbound::Malformed(DecodeError::MalformedMessage)
    );
    // what comes after a malformed text is handled as if nothing had happened
    assert_eq!(keys.receive(false, text_of(HELLO_REQUEST, None)), Inbound::HelloRequest);
}

#[test]
fn handshake_messages_are_reported() {
    let mut keys = peer();
    assert_eq!(keys.receive(false, text_of(HELLO_REQUEST, None)), Inbound::HelloRequest);
    assert_eq!(keys.receive(false, text_of(HELLO_ACCEPT, None)), Inbound::HelloAccept);
    assert_eq!(keys.receive(false, text_of(PUBKEY_SHARE_REQUEST, None)), Inbound::KeyRequest);
    assert!(keys.peer_pubkey().is_none());
}

#[test]
fn handshake_messages_ignore_a_payload() {
    let mut keys = peer();
    assert_eq!(
        keys.react(E2EMessage { opcode: HELLO_REQUEST, data: Some(vec![1, 2, 3]) }),
        Inbound::HelloRequest
    );
}

#[test]
fn unknown_opcodes_are_reported_with_their_value() {
    let mut keys = peer();
    assert_eq!(keys.receive(false, text_of(0, None)), Inbound::UnknownOpcode(0));
    assert_eq!(keys.receive(false, text_of(6, Some(vec![1]))), Inbound::UnknownOpcode(6));
    assert_eq!(keys.react(E2EMessage { opcode: 255, data: None }), Inbound::UnknownOpcode(255));
}

#[test]
fn key_share_sets_the_peer_key() {
    let mut keys = peer();
    let other = peer();
    let share = text_of(PUBKEY_SHARE, Some(other.self_pubkey().to_der()));
    assert_eq!(keys.receive(false, share), Inbound::KeyStored);
    assert_eq!(keys.peer_pubkey(), Some(other.self_pubkey()));
}

#[test]
fn later_key_share_replaces_the_earlier() {
    let mut keys = peer();
    let first = peer();
    let second = peer();
    keys.receive(false, text_of(PUBKEY_SHARE, Some(first.self_pubkey().to_der())));
    keys.receive(false, text_of(PUBKEY_SHARE, Some(second.self_pubkey().to_der())));
    assert_eq!(keys.peer_pubkey(), Some(second.self_pubkey()));
}

#[test]
fn bad_key_share_leaves_the_peer_key() {
    let mut keys = peer();
    let other = peer();
    keys.set_peer_key(other.self_pubkey().clone());
    assert_eq!(
        keys.receive(false, text_of(PUBKEY_SHARE, Some(b"no key".to_vec()))),
        Inbound::InvalidKey
    );
    assert_eq!(keys.receive(false, text_of(PUBKEY_SHARE, None)), Inbound::MissingPayload);
    assert_eq!(keys.peer_pubkey(), Some(other.self_pubkey()));
}

#[test]
fn encrypted_message_gives_its_plaintext() {
    let mut alice = peer();
    let mut bob = peer();
    bob.set_peer_key(alice.self_pubkey().clone());
    let ciphertext = bob.encrypt_message_for_peer("hello".as_bytes().to_vec()).unwrap();
    let before = alice.self_pubkey().clone();
    assert_eq!(
        alice.receive(false, text_of(ENCRYPTED_MESSAGE, Some(ciphertext))),
        Inbound::Secret(b"hello".to_vec())
    );
    assert_eq!(alice.self_pubkey(), &before);
    assert!(alice.peer_pubkey().is_none());
}

#[test]
fn encrypted_message_for_someone_else_is_undecryptable() {
    let alice = peer();
    let mut bob = peer();
    let mut eve = peer();
    bob.set_peer_key(alice.self_pubkey().clone());
    let ciphertext = bob.encrypt_message_for_peer(b"hello".to_vec()).unwrap();
    assert_eq!(
        eve.receive(false, text_of(ENCRYPTED_MESSAGE, Some(ciphertext))),
        Inbound::Undecryptable
    );
    assert_eq!(
        eve.receive(false, text_of(ENCRYPTED_MESSAGE, Some(vec![]))),
        Inbound::Undecryptable
    );
    assert_eq!(eve.receive(false, text_of(ENCRYPTED_MESSAGE, None)), Inbound::MissingPayload);
}

#[test]
fn whole_exchange_through_chat_text() {
    let mut alice = peer();
    let mut bob = peer();

    let hello = alice.compose(e2e_protocol::command::Command::Hello, vec![]).unwrap().unwrap();
    assert_eq!(bob.receive(false, hello.encode()), Inbound::HelloRequest);
    let accept = bob.compose(e2e_protocol::command::Command::Accept, vec![]).unwrap().unwrap();
    assert_eq!(alice.receive(false, accept.encode()), Inbound::HelloAccept);

    let request =
        bob.compose(e2e_protocol::command::Command::RequestKey, vec![]).unwrap().unwrap();
    assert_eq!(alice.receive(false, request.encode()), Inbound::KeyRequest);
    let share = alice.compose(e2e_protocol::command::Command::ShareKey, vec![]).unwrap().unwrap();
    assert_eq!(bob.receive(false, share.encode()), Inbound::KeyStored);

    let secret = bob
        .compose(e2e_protocol::command::Command::Send, "see you at nine".as_bytes().to_vec())
        .unwrap()
        .unwrap();
    let wire = secret.encode();
    assert_eq!(alice.receive(false, wire.clone()), Inbound::Secret(b"see you at nine".to_vec()));
    assert_eq!(bob.receive(false, wire.clone()), Inbound::Undecryptable);
    assert_eq!(bob.receive(true, wire), Inbound::OwnEcho);
}
