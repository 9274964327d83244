//! Opportunistic end-to-end encryption carried inside ordinary chat text.
//!
//! A protocol message is an opcode with an optional payload. On the wire it
//! is a sentinel character followed by the Z85 text of its binary record.
//! Each peer holds one RSA key pair and the public key of its counterpart.
//! Nothing authenticates a shared key: whoever can write to the channel can
//! present one, and the last key presented is the one in use.

pub mod armor;
pub mod command;
pub mod encryptor;
pub mod framing;
pub mod keys;
pub mod message;
pub mod protocol;
pub mod record;
pub mod session;
