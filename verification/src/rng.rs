//! The pseudo-random source behind the masked-random instruction.

use vstd::prelude::*;

use tinyrand::Rand;

verus! {

#[verifier::external_type_specification]
#[verifier::external_body]
pub struct ExWyrand(tinyrand::Wyrand);

/// Relies on tinyrand's `StdRand::default`: a generator in its default
/// starting state. Nothing is assumed about the values it will yield.
#[verifier::external_body]
pub(crate) fn fresh_rand() -> tinyrand::StdRand {
    tinyrand::StdRand::default()
}

/// Relies on tinyrand's `Rand::next_u16`: a fresh pseudo-random value,
/// of which the low byte is kept, so every byte value can be drawn.
/// Nothing is assumed about the value.
#[verifier::external_body]
pub(crate) fn next_byte(rand: &mut tinyrand::StdRand) -> u8 {
    rand.next_u16() as u8
}

} // verus!
