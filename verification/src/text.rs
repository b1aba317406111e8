//! Text that arrives as raw bytes.

use vstd::prelude::*;
use vstd::utf8::{decode_utf8, valid_utf8};

verus! {

/// The text that `String::from_utf8_lossy` makes of `bytes`: the bytes decoded
/// as UTF-8, with U+FFFD standing in for each stretch that is not UTF-8.
pub uninterp spec fn utf8_lossy(bytes: Seq<u8>) -> Seq<char>;

/// Decodes `bytes` leniently.
///
/// Calls `String::from_utf8_lossy` and takes the result as an owned string.
/// Not proved: that the result is `utf8_lossy` of the bytes, and that bytes
/// which are valid UTF-8 come out as exactly the text they encode.
#[verifier::external_body]
pub(crate) fn lossy_text(bytes: &[u8]) -> (text: String)
    ensures
        text@ == utf8_lossy(bytes@),
        valid_utf8(bytes@) ==> text@ == decode_utf8(bytes@),
{
    String::from_utf8_lossy(bytes).into_owned()
}

} // verus!
