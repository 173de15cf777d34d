//! Turning captured bytes into text without ever failing.
use vstd::prelude::*;
use vstd::utf8::{decode_utf8, valid_utf8};

verus! {

/// The text that lossy UTF-8 decoding makes of `bytes`: the characters that
/// the well-formed parts encode, with U+FFFD in place of each ill-formed
/// sequence.
pub uninterp spec fn lossy_text(bytes: Seq<u8>) -> Seq<char>;

/// Decodes `bytes` with `String::from_utf8_lossy`.
///
/// Trusted, not proved: the result is a function of the bytes alone, named
/// [`lossy_text`], and bytes that are well-formed UTF-8 decode to exactly the
/// characters they encode. What ill-formed bytes become is left to the
/// standard library.
#[verifier::external_body]
pub(crate) fn decode_lossy(bytes: &[u8]) -> (text: String)
    ensures
        text@ == lossy_text(bytes@),
        valid_utf8(bytes@) ==> text@ == decode_utf8(bytes@),
{
    String::from_utf8_lossy(bytes).into_owned()
}

} // verus!
