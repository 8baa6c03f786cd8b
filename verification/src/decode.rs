//! Text out of guest bytes.
//!
//! Guest memory holds whatever the guest wrote, so decoding never fails:
//! well-formed UTF-8 decodes to its characters, anything else is repaired.

use vstd::prelude::*;
use vstd::utf8::{decode_utf8, valid_utf8};

verus! {

/// The characters `String::from_utf8_lossy` makes of `bytes`: those that
/// `bytes` encode, with U+FFFD in place of every ill-formed part.
pub uninterp spec fn utf8_lossy(bytes: Seq<u8>) -> Seq<char>;

/// The text of `bytes`: their decoding where they are well-formed UTF-8,
/// and the repaired decoding where they are not.
pub open spec fn lossy_text(bytes: Seq<u8>) -> Seq<char> {
    if valid_utf8(bytes) {
        decode_utf8(bytes)
    } else {
        utf8_lossy(bytes)
    }
}

/// Calls `String::from_utf8_lossy` and owns what it returns.
///
/// Trusted: the result is the lossy decoding of `bytes`, and, as std
/// documents for valid input, the lossy decoding of well-formed UTF-8 is
/// the encoded characters unchanged.
#[verifier::external_body]
fn from_utf8_lossy(bytes: &[u8]) -> (text: String)
    ensures
        text@ == utf8_lossy(bytes@),
        valid_utf8(bytes@) ==> text@ == decode_utf8(bytes@),
{
    String::from_utf8_lossy(bytes).into_owned()
}

/// Decodes `bytes` into an owned string, replacing what is not UTF-8.
pub fn decode_lossy(bytes: &[u8]) -> (text: String)
    ensures
        text@ == lossy_text(bytes@),
{
    from_utf8_lossy(bytes)
}

} // verus!
