//! The binary record of a protocol message, read and written by bincode.
//!
//! A record is the opcode byte, then one tag byte that says whether a payload
//! follows. A payload is its length as eight little-endian bytes, then its
//! bytes. A reader takes a record from the front of its input and ignores
//! what comes after it.

use vstd::prelude::*;
use vstd::bytes::{
    lemma_auto_spec_u64_to_from_le_bytes, spec_u64_from_le_bytes, spec_u64_to_le_bytes,
};

verus! {

/// What a protocol message holds, as a mathematical value.
pub struct Record {
    pub opcode: u8,
    pub payload: Option<Seq<u8>>,
}

/// The payload of a message as a sequence, where there is one.
pub open spec fn payload_view(data: Option<Vec<u8>>) -> Option<Seq<u8>> {
    match data {
        Some(bytes) => Some(bytes@),
        None => None,
    }
}

/// Bytes that a record takes up before its payload starts.
pub const PAYLOAD_OFFSET: usize = 10;

/// The bytes of a record.
pub open spec fn record_bytes(record: Record) -> Seq<u8> {
    match record.payload {
        None => seq![record.opcode, 0u8],
        Some(payload) => seq![record.opcode, 1u8] + spec_u64_to_le_bytes(payload.len() as u64)
            + payload,
    }
}

/// The record at the front of `bytes`, or `None` where there is none:
/// the input ends too early or the tag byte is neither 0 nor 1.
pub open spec fn parse_record(bytes: Seq<u8>) -> Option<Record> {
    if bytes.len() < 2 {
        None
    } else if bytes[1] == 0 {
        Some(Record { opcode: bytes[0], payload: None })
    } else if bytes[1] == 1 && bytes.len() >= PAYLOAD_OFFSET {
        let len = spec_u64_from_le_bytes(bytes.subrange(2, PAYLOAD_OFFSET as int));
        if PAYLOAD_OFFSET + len <= bytes.len() {
            Some(
                Record {
                    opcode: bytes[0],
                    payload: Some(
                        bytes.subrange(PAYLOAD_OFFSET as int, PAYLOAD_OFFSET + len),
                    ),
                },
            )
        } else {
            None
        }
    } else {
        None
    }
}

/// A record can be written when its bytes can be counted in a `usize`.
pub open spec fn fits(record: Record) -> bool {
    match record.payload {
        None => true,
        Some(payload) => PAYLOAD_OFFSET + payload.len() <= usize::MAX,
    }
}

/// Reading the bytes of a record gives the record back, whatever follows it.
pub proof fn lemma_parse_written(record: Record, rest: Seq<u8>)
    requires
        fits(record),
    ensures
        parse_record(record_bytes(record) + rest) == Some(record),
{
    let bytes = record_bytes(record) + rest;
    match record.payload {
        None => {
            assert(bytes[0] == record.opcode);
            assert(bytes[1] == 0);
        },
        Some(payload) => {
            let len = payload.len() as u64;
            let prefix = spec_u64_to_le_bytes(len);
            lemma_auto_spec_u64_to_from_le_bytes();
            assert(prefix.len() == 8);
            assert(bytes[0] == record.opcode);
            assert(bytes[1] == 1);
            assert(bytes.subrange(2, PAYLOAD_OFFSET as int) =~= prefix);
            assert(bytes.subrange(PAYLOAD_OFFSET as int, PAYLOAD_OFFSET + len) =~= payload);
        },
    }
}

/// `bincode::serialize` on the pair of opcode and payload.
///
/// Trusted: bincode writes a `u8` as itself, an `Option` as the tag 0 or 1
/// followed by what it holds, and a byte vector as its length in eight
/// little-endian bytes followed by its items. A pair adds nothing of its own,
/// so a struct of these two fields has the same bytes. Writing into a vector
/// with no size limit set does not fail.
#[verifier::external_body]
pub(crate) fn write_record(opcode: u8, data: &Option<Vec<u8>>) -> (bytes: Vec<u8>)
    requires
        fits(Record { opcode, payload: payload_view(*data) }),
    ensures
        bytes@ == record_bytes(Record { opcode, payload: payload_view(*data) }),
{
    bincode::serialize(&(opcode, data)).unwrap()
}

/// `bincode::deserialize` to a pair of opcode and payload, with its error
/// dropped.
///
/// Trusted: bincode reads the pair from the front of `bytes` in the layout
/// that `write_record` states, allows bytes after it, and fails where the
/// input ends inside the record or the tag is neither 0 nor 1.
#[verifier::external_body]
pub(crate) fn read_record(bytes: &[u8]) -> (outcome: Option<(u8, Option<Vec<u8>>)>)
    ensures
        outcome is Some <==> parse_record(bytes@) is Some,
        outcome matches Some(pair) ==> parse_record(bytes@) == Some(
            Record { opcode: pair.0, payload: payload_view(pair.1) },
        ),
{
    bincode::deserialize::<(u8, Option<Vec<u8>>)>(bytes).ok()
}

} // verus!
