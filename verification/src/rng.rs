//! The shared pseudo-random generator behind guest address 254.
//!
//! The generator itself comes from the rand crate and is opaque to
//! verification; the peripheral logic holds for every byte it may
//! yield.

use vstd::prelude::*;

verus! {

/// rand's standard generator, declared so a peripheral state can hold
/// one; its inside stays opaque to verification.
#[verifier::external_type_specification]
#[verifier::external_body]
pub struct ExStdRng(rand::rngs::StdRng);

/// Relies on rand::rngs::StdRng::from_entropy (via SeedableRng): seeds
/// a fresh generator from system entropy. Nothing is promised of the
/// stream it will yield.
#[verifier::external_body]
pub fn rng_from_entropy() -> rand::rngs::StdRng {
    rand::SeedableRng::from_entropy()
}

/// Relies on rand::Rng::gen::<u8>: draws the next byte of the stream.
/// The value depends on the generator's hidden state, so nothing is
/// promised of it; callers hold for every outcome.
#[verifier::external_body]
pub fn rng_next_byte(rng: &mut rand::rngs::StdRng) -> u8 {
    rand::Rng::gen::<u8>(rng)
}

} // verus!
