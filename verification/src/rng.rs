//! The source of random bytes.

use vstd::prelude::*;

verus! {

/// One byte from the thread-local generator of the `rand` crate, by
/// `rand::random::<u8>()`. Nothing is assumed of the value: callers are
/// verified for every byte that may come back. The generator seeds itself
/// from the operating system on first use and panics if that source fails.
#[verifier::external_body]
pub(crate) fn random_byte() -> (byte: u8) {
    rand::random::<u8>()
}

} // verus!
