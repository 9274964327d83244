//! Z85 text for arbitrary bytes, by the `z85` crate.
//!
//! The crate pads: input whose length is no multiple of four still has a
//! text, and that text is not the one of the ZeroMQ format. What the crate
//! writes and what it accepts are named here, not restated.

use vstd::prelude::*;

verus! {

/// The text that `z85::encode` gives for `bytes`.
pub uninterp spec fn z85_text(bytes: Seq<u8>) -> Seq<char>;

/// The bytes that `z85::decode` gives for `text`; `None` where it refuses it.
pub uninterp spec fn z85_bytes(text: Seq<char>) -> Option<Seq<u8>>;

/// The characters that can be typed and seen: ASCII from `!` to `~`.
pub open spec fn is_printable(c: char) -> bool {
    0x21 <= c as u32 <= 0x7E
}

/// `z85::encode`.
///
/// Trusted: the text depends on the bytes alone, `z85::decode` gives the
/// same bytes back for it, and each of its characters is one of the crate's
/// 85 letters, all of which are printable.
#[verifier::external_body]
pub(crate) fn armor(bytes: &[u8]) -> (text: String)
    ensures
        text@ == z85_text(bytes@),
        z85_bytes(text@) == Some(bytes@),
        forall|i: int| 0 <= i < text@.len() ==> is_printable(#[trigger] text@[i]),
{
    z85::encode(bytes)
}

/// `z85::decode`, with its error dropped.
///
/// Trusted: whether the text is accepted, and the bytes given for it, depend
/// on the text alone.
#[verifier::external_body]
pub(crate) fn dearmor(text: &str) -> (outcome: Option<Vec<u8>>)
    ensures
        outcome is Some <==> z85_bytes(text@) is Some,
        outcome matches Some(bytes) ==> z85_bytes(text@) == Some(bytes@),
{
    z85::decode(text).ok()
}

} // verus!
