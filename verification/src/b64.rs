//! Base64 text encoding of framed binary data.

use vstd::prelude::*;

verus! {

/// The base64 text (standard alphabet, padded) of a byte sequence.
pub uninterp spec fn base64_of(bytes: Seq<u8>) -> Seq<char>;

/// Relies on `base64::encode` (standard alphabet, with padding): the output
/// is a function of the input bytes alone, four characters per started
/// three-byte block.
#[verifier::external_body]
pub(crate) fn base64_encode(bytes: &Vec<u8>) -> (r: String)
    ensures
        r@ == base64_of(bytes@),
        r@.len() == 4 * ((bytes@.len() + 2) / 3),
{
    base64::encode(bytes)
}

} // verus!
