//! The machine's source of chance.

use rand::Rng;
use vstd::prelude::*;

verus! {

/// A byte drawn with `rand::Rng::gen` from the generator that
/// `rand::thread_rng` hands out: the thread-local one, seeded by the
/// operating system. Nothing is claimed of the value: two calls may give any
/// two bytes. The generator panics if the operating system cannot seed it.
#[verifier::external_body]
pub(crate) fn random_byte() -> u8 {
    rand::thread_rng().gen()
}

} // verus!
