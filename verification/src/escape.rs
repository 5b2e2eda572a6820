use crate::text::text_of;
use vstd::prelude::*;

verus! {

/// What `unescape::unescape` makes of `text`: the text with each backslash
/// escape replaced by the character it stands for, or nothing if an escape
/// in it is malformed.
pub uninterp spec fn unescaped(text: Seq<char>) -> Option<Seq<char>>;

/// Calls `unescape::unescape` on `text`.
///
/// Trusted: the result is the one named by [`unescaped`]. The outside function
/// reads the characters once, front to back, and fails on no input.
#[verifier::external_body]
pub(crate) fn js_utf8_decode(text: &str) -> (decoded: Option<String>)
    ensures
        text_of(decoded) == unescaped(text@),
{
    unescape::unescape(text)
}

} // verus!
