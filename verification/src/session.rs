//! What a peer does with a chat text that arrives, and what it sends when its
//! user gives a command.
//!
//! Nothing here reads or writes: the caller delivers texts and command lines,
//! and carries out what comes back.

use vstd::prelude::*;
use crate::encryptor::{KeyRing, MessageEncryptor};
use crate::keys::{pkcs1_modulus_len, rsa_opened};
use crate::framing::is_framed;
use crate::message::{decoded_text, follows_taxonomy, DecodeError, E2EMessage};
use crate::protocol::{
    ENCRYPTED_MESSAGE, HELLO_ACCEPT, HELLO_REQUEST, PUBKEY_SHARE, PUBKEY_SHARE_REQUEST,
};
use crate::record::Record;

verus! {

/// What an inbound text turned out to be, as a mathematical value.
pub enum Event {
    /// A text that this peer sent itself.
    OwnEcho,
    /// Ordinary conversation.
    Chat,
    /// A text with the sentinel that holds no message.
    Malformed(DecodeError),
    /// The counterpart asks to encrypt this channel.
    HelloRequest,
    /// The counterpart accepts encryption.
    HelloAccept,
    /// The counterpart shared its public key, and it was taken.
    KeyStored,
    /// The counterpart asks for this peer's public key.
    KeyRequest,
    /// An encrypted message, with its plaintext.
    Secret(Seq<u8>),
    /// A key share or an encrypted message without a payload.
    MissingPayload,
    /// A key share whose payload is no public key.
    InvalidKey,
    /// An encrypted message that does not open under this peer's key.
    Undecryptable,
    /// A message with an opcode that the protocol does not define.
    UnknownOpcode(u8),
}

/// What an inbound text turned out to be.
#[derive(Clone, Debug, PartialEq, Eq)]
pub enum Inbound {
    /// A text that this peer sent itself.
    OwnEcho,
    /// Ordinary conversation.
    Chat,
    /// A text with the sentinel that holds no message.
    Malformed(DecodeError),
    /// The counterpart asks to encrypt this channel.
    HelloRequest,
    /// The counterpart accepts encryption.
    HelloAccept,
    /// The counterpart shared its public key, and it was taken.
    KeyStored,
    /// The counterpart asks for this peer's public key.
    KeyRequest,
    /// An encrypted message, with its plaintext.
    Secret(Vec<u8>),
    /// A key share or an encrypted message without a payload.
    MissingPayload,
    /// A key share whose payload is no public key.
    InvalidKey,
    /// An encrypted message that does not open under this peer's key.
    Undecryptable,
    /// A message with an opcode that the protocol does not define.
    UnknownOpcode(u8),
}

impl View for Inbound {
    type V = Event;

    open spec fn view(&self) -> Event {
        match *self {
            Inbound::OwnEcho => Event::OwnEcho,
            Inbound::Chat => Event::Chat,
            Inbound::Malformed(error) => Event::Malformed(error),
            Inbound::HelloRequest => Event::HelloRequest,
            Inbound::HelloAccept => Event::HelloAccept,
            Inbound::KeyStored => Event::KeyStored,
            Inbound::KeyRequest => Event::KeyRequest,
            Inbound::Secret(plaintext) => Event::Secret(plaintext@),
            Inbound::MissingPayload => Event::MissingPayload,
            Inbound::InvalidKey => Event::InvalidKey,
            Inbound::Undecryptable => Event::Undecryptable,
            Inbound::UnknownOpcode(opcode) => Event::UnknownOpcode(opcode),
        }
    }
}

/// What a message from the counterpart is to a peer with the keys `ring`.
pub open spec fn reaction(ring: KeyRing, record: Record) -> Event {
    if record.opcode == HELLO_REQUEST {
        Event::HelloRequest
    } else if record.opcode == HELLO_ACCEPT {
        Event::HelloAccept
    } else if record.opcode == PUBKEY_SHARE_REQUEST {
        Event::KeyRequest
    } else if record.opcode == PUBKEY_SHARE {
        match record.payload {
            None => Event::MissingPayload,
            Some(der) => if pkcs1_modulus_len(der) is Some {
                Event::KeyStored
            } else {
                Event::InvalidKey
            },
        }
    } else if record.opcode == ENCRYPTED_MESSAGE {
        match record.payload {
            None => Event::MissingPayload,
            Some(ciphertext) => match rsa_opened(ring.private_der, ciphertext) {
                Some(plaintext) => Event::Secret(plaintext),
                None => Event::Undecryptable,
            },
        }
    } else {
        Event::UnknownOpcode(record.opcode)
    }
}

/// The keys of a peer after a message from the counterpart: a key share
/// that was taken replaces the peer key, and nothing else changes anything.
pub open spec fn ring_after(ring: KeyRing, record: Record) -> KeyRing {
    if reaction(ring, record) is KeyStored {
        KeyRing { peer_der: record.payload, ..ring }
    } else {
        ring
    }
}

/// What a chat text is to a peer with the keys `ring`. `own` says that the
/// peer sent the text itself.
pub open spec fn arrival(ring: KeyRing, own: bool, text: Seq<char>) -> Event {
    if own {
        Event::OwnEcho
    } else {
        match decoded_text(text) {
            Err(DecodeError::NotEncoded) => Event::Chat,
            Err(error) => Event::Malformed(error),
            Ok(record) => reaction(ring, record),
        }
    }
}

/// The keys of a peer after a chat text.
pub open spec fn ring_after_arrival(ring: KeyRing, own: bool, text: Seq<char>) -> KeyRing {
    if own {
        ring
    } else {
        match decoded_text(text) {
            Err(_) => ring,
            Ok(record) => ring_after(ring, record),
        }
    }
}

/// A message that follows the taxonomy is never answered with
/// `MissingPayload` or `UnknownOpcode`.
pub proof fn lemma_reaction_to_taxonomy(ring: KeyRing, record: Record)
    requires
        follows_taxonomy(record),
    ensures
        !(reaction(ring, record) is MissingPayload),
        !(reaction(ring, record) is UnknownOpcode),
{
}

/// No message changes this peer's own key pair, and only a key share that
/// was taken changes the peer key.
pub proof fn lemma_ring_after_keeps_own_keys(ring: KeyRing, record: Record)
    ensures
        ring_after(ring, record).private_der == ring.private_der,
        ring_after(ring, record).public_der == ring.public_der,
        ring_after(ring, record).peer_der != ring.peer_der ==> reaction(ring, record)
            is KeyStored,
{
}

/// A text without the sentinel is conversation and changes nothing.
pub proof fn lemma_unframed_text_is_chat(ring: KeyRing, text: Seq<char>)
    requires
        !is_framed(text),
    ensures
        arrival(ring, false, text) == Event::Chat,
        ring_after_arrival(ring, false, text) == ring,
{
}

impl MessageEncryptor {
    /// Handles a message from the counterpart.
    pub fn react(&mut self, message: E2EMessage) -> (event: Inbound)
        ensures
            event@ == reaction(old(self)@, message@),
            final(self)@ == ring_after(old(self)@, message@),
    {
        let opcode = message.opcode;
        if opcode == HELLO_REQUEST {
            Inbound::HelloRequest
        } else if opcode == HELLO_ACCEPT {
            Inbound::HelloAccept
        } else if opcode == PUBKEY_SHARE_REQUEST {
            Inbound::KeyRequest
        } else if opcode == PUBKEY_SHARE {
            match message.data {
                None => Inbound::MissingPayload,
                Some(der) => match MessageEncryptor::decode_pubkey(der) {
                    Ok(key) => {
                        self.set_peer_key(key);
                        Inbound::KeyStored
                    },
                    Err(_) => Inbound::InvalidKey,
                },
            }
        } else if opcode == ENCRYPTED_MESSAGE {
            match message.data {
                None => Inbound::MissingPayload,
                Some(ciphertext) => match self.decrypt_message_from_peer(ciphertext) {
                    Ok(plaintext) => Inbound::Secret(plaintext),
                    Err(_) => Inbound::Undecryptable,
                },
            }
        } else {
            Inbound::UnknownOpcode(opcode)
        }
    }

    /// Handles a chat text. `own` says that this peer sent it itself.
    pub fn receive(&mut self, own: bool, text: String) -> (event: Inbound)
        ensures
            event@ == arrival(old(self)@, own, text@),
            final(self)@ == ring_after_arrival(old(self)@, own, text@),
    {
        if own {
            return Inbound::OwnEcho;
        }
        match E2EMessage::decode(text) {
            Ok(message) => self.react(message),
            Err(DecodeError::NotEncoded) => Inbound::Chat,
            Err(error) => Inbound::Malformed(error),
        }
    }
}

} // verus!
