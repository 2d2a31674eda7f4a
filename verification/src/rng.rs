//! The source of random bytes.

use vstd::prelude::*;

verus! {

/// One random byte from `rand::random`.
///
/// `rand::random::<u8>()` draws from the calling thread's generator, which
/// the operating system seeds; every value of a byte can come back, so
/// nothing is claimed of the result. (It panics only where the system can
/// give the generator no seed.)
#[verifier::external_body]
pub(crate) fn random_byte() -> (byte: u8) {
    rand::random::<u8>()
}

} // verus!
