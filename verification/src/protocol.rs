//! The constants that both peers must agree on.

use vstd::prelude::*;

verus! {

/// Asks the other side whether this channel may be encrypted. No payload.
pub const HELLO_REQUEST: u8 = 1;

/// Answers a hello request and accepts encryption. No payload.
pub const HELLO_ACCEPT: u8 = 2;

/// Carries the sender's public key in PKCS#1 DER.
pub const PUBKEY_SHARE: u8 = 3;

/// Asks the other side to send its public key. No payload.
pub const PUBKEY_SHARE_REQUEST: u8 = 4;

/// Carries the ciphertext of a chat message.
pub const ENCRYPTED_MESSAGE: u8 = 5;

/// The character that marks a chat text as a protocol message.
pub const CONTROL_CHARACTER: char = '\u{232C}';

/// Modulus size, in bits, of the key pairs made by default.
pub const ENCRYPTION_BITS: usize = 4096;

/// Whether `opcode` is one of the five that the protocol defines.
pub open spec fn is_known_opcode(opcode: u8) -> bool {
    HELLO_REQUEST <= opcode <= ENCRYPTED_MESSAGE
}

/// Whether messages with `opcode` carry a payload.
pub open spec fn carries_payload(opcode: u8) -> bool {
    opcode == PUBKEY_SHARE || opcode == ENCRYPTED_MESSAGE
}

} // verus!
