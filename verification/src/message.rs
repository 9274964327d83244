//! Protocol messages and their form as chat text.

use vstd::prelude::*;
use crate::armor::{armor, dearmor, is_printable, z85_bytes, z85_text};
use crate::framing::{frame, frame_body, framed, has_frame, is_framed, unframe};
use crate::protocol::{carries_payload, is_known_opcode};
use crate::record::{
    fits, lemma_parse_written, parse_record, payload_view, read_record, record_bytes,
    write_record, Record, PAYLOAD_OFFSET,
};

verus! {

/// One protocol message: what it means, and the data that goes with it.
#[derive(Clone, PartialEq, Debug)]
pub struct E2EMessage {
    /// Operation code: one of the opcodes of `protocol`.
    pub opcode: u8,
    /// A public key, a ciphertext, or nothing, as the opcode asks.
    pub data: Option<Vec<u8>>,
}

impl View for E2EMessage {
    type V = Record;

    open spec fn view(&self) -> Record {
        Record { opcode: self.opcode, payload: payload_view(self.data) }
    }
}

/// Why a text or a key could not be read.
#[derive(Clone, Copy, Debug, PartialEq, Eq, Structural)]
pub enum DecodeError {
    /// The text does not start with the sentinel: ordinary conversation.
    NotEncoded,
    /// What follows the sentinel is not Z85 text.
    MalformedEncoding,
    /// The bytes under the Z85 text hold no record.
    MalformedMessage,
    /// The bytes are not a public key in PKCS#1 DER.
    InvalidKeyEncoding,
}

/// A record follows the taxonomy when its opcode is one of the protocol's and
/// it has a payload exactly where that opcode carries one.
pub open spec fn follows_taxonomy(record: Record) -> bool {
    is_known_opcode(record.opcode) && (record.payload is Some <==> carries_payload(
        record.opcode,
    ))
}

/// The chat text of a message: the sentinel, then the Z85 text of its record.
pub open spec fn encoded_text(record: Record) -> Seq<char> {
    framed(z85_text(record_bytes(record)))
}

/// What bytes mean as a message.
pub open spec fn decoded_bytes(bytes: Seq<u8>) -> Result<Record, DecodeError> {
    match parse_record(bytes) {
        Some(record) => Ok(record),
        None => Err(DecodeError::MalformedMessage),
    }
}

/// What a chat text means as a message.
pub open spec fn decoded_text(text: Seq<char>) -> Result<Record, DecodeError> {
    if !is_framed(text) {
        Err(DecodeError::NotEncoded)
    } else {
        match z85_bytes(frame_body(text)) {
            None => Err(DecodeError::MalformedEncoding),
            Some(bytes) => decoded_bytes(bytes),
        }
    }
}

/// The outcome of reading a message, as a mathematical value.
pub open spec fn outcome_view(outcome: Result<E2EMessage, DecodeError>) -> Result<
    Record,
    DecodeError,
> {
    match outcome {
        Ok(message) => Ok(message@),
        Err(error) => Err(error),
    }
}

/// A text reads as `NotEncoded` exactly when it does not start with the
/// sentinel.
pub proof fn lemma_not_encoded_iff_unframed(text: Seq<char>)
    ensures
        decoded_text(text) == Err::<Record, DecodeError>(DecodeError::NotEncoded) <==> !is_framed(
            text,
        ),
{
}

/// A text that starts with the sentinel reads as a message or as one of the
/// two malformed errors, whatever follows the sentinel.
pub proof fn lemma_framed_text_is_message_or_malformed(text: Seq<char>)
    requires
        is_framed(text),
    ensures
        decoded_text(text) is Ok || decoded_text(text) == Err::<Record, DecodeError>(
            DecodeError::MalformedEncoding,
        ) || decoded_text(text) == Err::<Record, DecodeError>(DecodeError::MalformedMessage),
{
}

/// Reading the bytes of a record as a message gives the record back.
pub proof fn lemma_decoded_record_bytes(record: Record)
    requires
        fits(record),
    ensures
        decoded_bytes(record_bytes(record)) == Ok::<Record, DecodeError>(record),
{
    lemma_parse_written(record, Seq::empty());
    assert(record_bytes(record) + Seq::<u8>::empty() =~= record_bytes(record));
}

impl E2EMessage {
    /// Whether the record of this message can be counted in a `usize`, which
    /// is what `to_bytes` and `encode` ask for.
    pub fn is_encodable(&self) -> (encodable: bool)
        ensures
            encodable == fits(self@),
    {
        match &self.data {
            None => true,
            Some(payload) => payload.len() <= usize::MAX - PAYLOAD_OFFSET,
        }
    }

    /// The binary record of this message.
    pub fn to_bytes(&self) -> (bytes: Vec<u8>)
        requires
            fits(self@),
        ensures
            bytes@ == record_bytes(self@),
            decoded_bytes(bytes@) == Ok::<Record, DecodeError>(self@),
    {
        proof {
            lemma_decoded_record_bytes(self@);
        }
        write_record(self.opcode, &self.data)
    }

    /// Reads the record at the front of `bytes`.
    pub fn from_bytes(bytes: &[u8]) -> (outcome: Result<E2EMessage, DecodeError>)
        ensures
            outcome_view(outcome) == decoded_bytes(bytes@),
    {
        match read_record(bytes) {
            Some(pair) => Ok(E2EMessage { opcode: pair.0, data: pair.1 }),
            None => Err(DecodeError::MalformedMessage),
        }
    }

    /// Converts this message into chat text.
    pub fn encode(&self) -> (text: String)
        requires
            fits(self@),
        ensures
            text@ == encoded_text(self@),
            is_framed(text@),
            forall|i: int| 1 <= i < text@.len() ==> is_printable(#[trigger] text@[i]),
            decoded_text(text@) == Ok::<Record, DecodeError>(self@),
    {
        let bytes = self.to_bytes();
        let body = armor(bytes.as_slice());
        let text = frame(body.as_str());
        assert forall|i: int| 1 <= i < text@.len() implies is_printable(#[trigger] text@[i]) by {
            assert(text@[i] == body@[i - 1]);
        }
        text
    }

    /// Reads a message from chat text.
    pub fn decode(item: String) -> (outcome: Result<E2EMessage, DecodeError>)
        ensures
            outcome_view(outcome) == decoded_text(item@),
    {
        match unframe(item.as_str()) {
            None => Err(DecodeError::NotEncoded),
            Some(body) => match dearmor(body.as_str()) {
                None => Err(DecodeError::MalformedEncoding),
                Some(bytes) => Self::from_bytes(bytes.as_slice()),
            },
        }
    }

    /// Checks if a text could be a protocol message: whether its first
    /// character is the sentinel.
    pub fn is_encoded(item: String) -> (encoded: bool)
        ensures
            encoded == is_framed(item@),
    {
        has_frame(item.as_str())
    }
}

} // verus!
