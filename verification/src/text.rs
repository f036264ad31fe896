//! Stored and captured bytes read as text.

use vstd::prelude::*;
use vstd::utf8::{decode_utf8, valid_utf8};

verus! {

/// The text that a lossy reading of `bytes` as UTF-8 gives: each malformed
/// stretch is replaced by U+FFFD, and nothing is ever rejected.
pub uninterp spec fn lossy_utf8(bytes: Seq<u8>) -> Seq<char>;

/// Whether `text` is what a lossy reading of `bytes` gives. Bytes that are
/// well-formed UTF-8 come through unchanged, as the characters they encode.
pub open spec fn reads_as(bytes: Seq<u8>, text: Seq<char>) -> bool {
    &&& text == lossy_utf8(bytes)
    &&& valid_utf8(bytes) ==> text == decode_utf8(bytes)
}

/// Calls `String::from_utf8_lossy` and takes ownership of what it returns.
/// Trusted: the result depends on the bytes alone, and it is the decoded
/// string itself whenever the bytes are valid UTF-8.
#[verifier::external_body]
pub(crate) fn decode_lossy(bytes: &Vec<u8>) -> (text: String)
    ensures
        text@ == lossy_utf8(bytes@),
        valid_utf8(bytes@) ==> text@ == decode_utf8(bytes@),
{
    String::from_utf8_lossy(bytes).into_owned()
}

} // verus!
