//! The source of random bytes.

use vstd::prelude::*;
use rand::Rng;

verus! {

/// Draws a byte from the thread-local generator of the `rand` crate: a call
/// of `rand::rng()` and of `Rng::random` on the handle it returns.
///
/// This is trusted, not proved. Nothing is claimed of the byte: it may be any
/// value and differs from call to call. The generator is seeded from the
/// operating system on first use in a thread, and the `rand` crate panics if
/// that seeding fails.
#[verifier::external_body]
pub(crate) fn random_byte() -> u8 {
    rand::rng().random()
}

} // verus!
