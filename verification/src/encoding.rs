//! Text encodings read from outside: base64, and the text form of a principal.

use vstd::prelude::*;

verus! {

/// What `base64::decode` makes of `input`: the bytes, or `None` where the
/// input is not standard base64.
pub uninterp spec fn base64_decoded(input: Seq<u8>) -> Option<Seq<u8>>;

/// What `candid::Principal::from_text` makes of `text`: the principal's
/// bytes, or `None` where the text is not the text form of a principal.
pub uninterp spec fn principal_of_text(text: Seq<char>) -> Option<Seq<u8>>;

/// Decodes standard base64 with `base64::decode`.
///
/// Trusted: the result is that function's, which depends on the input
/// alone. It computes `input.len() + 3` and panics where that overflows,
/// hence the precondition.
#[verifier::external_body]
pub(crate) fn base64_decode(input: &[u8]) -> (decoded: Option<Vec<u8>>)
    requires
        input@.len() + 3 <= usize::MAX,
    ensures
        base64_decoded(input@) == match decoded {
            Some(bytes) => Some(bytes@),
            None => None,
        },
{
    base64::decode(input).ok()
}

/// Parses the text form of a principal with `candid::Principal::from_text`
/// and hands back the principal's bytes (`as_slice`).
///
/// Trusted: the result is that function's, which depends on the text alone.
#[verifier::external_body]
pub(crate) fn principal_from_text(text: &str) -> (principal: Option<Vec<u8>>)
    ensures
        principal_of_text(text@) == match principal {
            Some(bytes) => Some(bytes@),
            None => None,
        },
{
    candid::Principal::from_text(text).ok().map(|p| p.as_slice().to_vec())
}

} // verus!
