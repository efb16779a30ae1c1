//! Trusted binding to the operating system's entropy source.

use vstd::prelude::*;

verus! {

/// Relies on `getrandom::getrandom`: on success the whole buffer is filled
/// from the operating system's cryptographically secure entropy source; the
/// drawn values themselves are unpredictable, so nothing is promised of them.
#[verifier::external_body]
pub(crate) fn fill_random(n: usize) -> (r: Option<Vec<u8>>)
    ensures
        r matches Some(v) ==> v@.len() == n,
{
    let mut buf = vec![0u8; n];
    match getrandom::getrandom(&mut buf) {
        Ok(()) => Some(buf),
        Err(_) => None,
    }
}

} // verus!
