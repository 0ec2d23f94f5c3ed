//! The boundary to the base64 decoder, used to open the opaque success
//! payload that a mint or assemble outcome carries.
use vstd::prelude::*;

verus! {

/// What the base64 decoder (standard alphabet, padded) makes of a
/// string: `None` when the decoder rejects the input, otherwise the
/// decoded bytes.
pub uninterp spec fn base64_decoded(s: Seq<char>) -> Option<Seq<u8>>;

/// Relies on `base64::decode`: standard alphabet with padding; whether
/// the input decodes, and the decoded bytes, depend on the characters
/// alone.
#[verifier::external_body]
pub(crate) fn base64_decode(s: &str) -> (r: Option<Vec<u8>>)
    ensures
        match r {
            Some(b) => base64_decoded(s@) == Some(b@),
            None => base64_decoded(s@) is None,
        },
{
    base64::decode(s).ok()
}

} // verus!
