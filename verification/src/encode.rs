//! Base64 encoding of the credential pair, through the `base64` crate.
use base64::Engine;
use vstd::prelude::*;

verus! {

/// What the `base64` crate's STANDARD engine returns for a given piece of
/// text: the padded base64 encoding of its UTF-8 bytes, a function of the
/// text alone.
pub uninterp spec fn base64_of(s: Seq<char>) -> Seq<char>;

/// Relies on `base64::engine::general_purpose::STANDARD.encode` (standard
/// alphabet, padded): the result depends on the input bytes alone, and an
/// empty input encodes to an empty string. The length bound keeps the
/// engine's output-size computation inside `usize`, so the call cannot
/// panic.
#[verifier::external_body]
pub(crate) fn base64_encode(text: &str) -> (r: String)
    requires
        text@.len() < 0x1000_0000,
    ensures
        r@ == base64_of(text@),
        text@.len() == 0 ==> r@.len() == 0,
{
    base64::engine::general_purpose::STANDARD.encode(text)
}

} // verus!
