use crate::text::text_of;
use crypto::digest::Digest;
use crypto::sha1::Sha1;
use vstd::prelude::*;
use vstd::string::*;
use vstd::utf8::encode_utf8;

verus! {

/// The lower-case hexadecimal SHA-1 digest of the UTF-8 encoding of `text`.
pub uninterp spec fn sha1_hex(text: Seq<char>) -> Seq<char>;

/// The hasher takes messages of fewer than 2^61 bytes.
pub open spec fn hashable(text: Seq<char>) -> bool {
    encode_utf8(text).len() < 0x2000_0000_0000_0000
}

/// Calls `crypto::sha1::Sha1` (`new`, `input_str`, `result_str`) on `content`.
///
/// Trusted: the result is the digest named by [`sha1_hex`]. The hasher counts
/// its input in bits and refuses a message of 2^61 bytes or more, which the
/// precondition leaves out.
#[verifier::external_body]
fn sha1_unchecked(content: &str) -> (digest: String)
    requires
        hashable(content@),
    ensures
        digest@ == sha1_hex(content@),
{
    let mut hasher = Sha1::new();
    hasher.input_str(content);
    hasher.result_str()
}

/// The SHA-1 digest of `content` in lower-case hexadecimal, or nothing where
/// `content` is longer than the hasher takes.
pub fn sha1(content: &str) -> (digest: Option<String>)
    ensures
        text_of(digest) == if hashable(content@) {
            Some(sha1_hex(content@))
        } else {
            None
        },
{
    if (content.as_bytes().len() as u64) < 0x2000_0000_0000_0000u64 {
        Some(sha1_unchecked(content))
    } else {
        None
    }
}

} // verus!
