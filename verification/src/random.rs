//! The random source of the machine: the thread-local generator of `rand`.

use vstd::prelude::*;

verus! {

/// The handle to `rand`'s thread-local generator, carried through as an
/// opaque value.
#[verifier::external_type_specification]
#[verifier::external_body]
pub struct ExThreadRng(rand::rngs::ThreadRng);

/// `rand::thread_rng`: hands out a handle to the lazily seeded thread-local
/// generator. Nothing is claimed of the handle. Where the operating system
/// gives no entropy for the first seed, the call panics.
pub assume_specification[ rand::thread_rng ]() -> (rng: rand::rngs::ThreadRng);

/// `rand::Rng::gen::<u8>` on the thread-local generator: one byte drawn from
/// the generator. Nothing is claimed of the byte beyond its type, so two
/// calls may differ.
#[verifier::external_body]
pub(crate) fn random_byte(rng: &mut rand::rngs::ThreadRng) -> (byte: u8) {
    rand::Rng::gen(rng)
}

} // verus!
