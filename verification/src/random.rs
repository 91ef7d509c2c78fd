//! Trusted boundary to bracket_lib's random number generator.
//!
//! The generator itself is opaque to the verifier; the one fact the library
//! builds on is the documented range of `range`.

use vstd::prelude::*;

verus! {

#[verifier::external_type_specification]
#[verifier::external_body]
pub struct ExRandomNumberGenerator(bracket_lib::prelude::RandomNumberGenerator);

/// Relies on bracket_lib's `RandomNumberGenerator::new`, which builds a
/// freshly seeded xorshift generator; nothing is assumed of the seed or of
/// the values it will yield.
#[verifier::external_body]
pub(crate) fn rng_new() -> bracket_lib::prelude::RandomNumberGenerator {
    bracket_lib::prelude::RandomNumberGenerator::new()
}

/// Relies on bracket_lib's `RandomNumberGenerator::range`, documented as
/// inclusive of `min` and exclusive of `max`. The underlying sampler rejects
/// an empty range, so `min < max` is required; which value comes back is not
/// assumed beyond those bounds.
#[verifier::external_body]
pub(crate) fn rng_range(
    rng: &mut bracket_lib::prelude::RandomNumberGenerator,
    min: i32,
    max: i32,
) -> (r: i32)
    requires
        min < max,
    ensures
        min <= r < max,
{
    rng.range(min, max)
}

} // verus!
