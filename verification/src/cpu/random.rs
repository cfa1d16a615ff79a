//! The source of random bytes.

use rand::Rng;
use vstd::prelude::*;

verus! {

/// Draws a byte with `rand::thread_rng().gen::<u8>()`, the thread-local
/// generator of the `rand` crate. Nothing is claimed of the byte: it differs
/// from call to call. The generator seeds itself from the operating system
/// on first use and panics if that source fails.
#[verifier::external_body]
pub(crate) fn random_byte() -> (r: u8) {
    rand::thread_rng().gen::<u8>()
}

} // verus!
