//! The operating system's random source, as far as this library relies on it.

use vstd::prelude::*;

verus! {

/// `rand::Error`, the error of a random source. A value of it is opaque
/// here: that there is one is all that is read from it.
#[verifier::external_type_specification]
#[verifier::external_body]
pub struct ExRandError(rand::Error);

/// Calls `try_fill_bytes` of `rand::rngs::OsRng`, which asks the operating
/// system for `dest.len()` random bytes and puts them into `dest`.
///
/// Believed of it, not proved: it returns, and `dest` is as long after the
/// call as before. Nothing is claimed of the bytes, nor of when the call
/// fails; after a failure `dest` may hold anything.
#[verifier::external_body]
pub(crate) fn os_fill(dest: &mut [u8]) -> (r: Result<(), rand::Error>)
    ensures
        final(dest)@.len() == old(dest)@.len(),
{
    rand::RngCore::try_fill_bytes(&mut rand::rngs::OsRng, dest)
}

} // verus!
