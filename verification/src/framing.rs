//! The sentinel that tells protocol traffic from conversation.

use vstd::prelude::*;
use vstd::string::*;
use crate::protocol::CONTROL_CHARACTER;

verus! {

/// A text is framed when its first character is the sentinel.
pub open spec fn is_framed(text: Seq<char>) -> bool {
    text.len() > 0 && text[0] == CONTROL_CHARACTER
}

/// The framed form of `body`: the sentinel, then `body`.
pub open spec fn framed(body: Seq<char>) -> Seq<char> {
    seq![CONTROL_CHARACTER] + body
}

/// What follows the sentinel in a framed text.
pub open spec fn frame_body(text: Seq<char>) -> Seq<char> {
    text.skip(1)
}

/// Tests for the sentinel. Looks at the first character only.
pub fn has_frame(text: &str) -> (b: bool)
    ensures
        b == is_framed(text@),
{
    !text.is_empty() && text.get_char(0) == CONTROL_CHARACTER
}

/// Puts the sentinel in front of `body`.
pub fn frame(body: &str) -> (text: String)
    ensures
        text@ == framed(body@),
        is_framed(text@),
        frame_body(text@) == body@,
{
    proof {
        reveal_strlit("\u{232C}");
    }
    let mut text = String::from_str("\u{232C}");
    text.append(body);
    assert(text@.skip(1) =~= body@);
    text
}

/// Takes the sentinel off a framed text; `None` for any other text.
pub fn unframe(text: &str) -> (body: Option<String>)
    ensures
        is_framed(text@) ==> body is Some && body->0@ == frame_body(text@),
        !is_framed(text@) ==> body is None,
{
    if has_frame(text) {
        let len: usize = text.unicode_len();
        let rest = text.substring_char(1, len);
        assert(rest@ =~= text@.skip(1));
        Some(String::from_str(rest))
    } else {
        None
    }
}

} // verus!
