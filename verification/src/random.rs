//! The random source of a session.

use bracket_lib::prelude::RandomNumberGenerator;
use vstd::prelude::*;

verus! {

/// `bracket_lib`'s `RandomNumberGenerator`, taken as it is: nothing is
/// known of what a generator holds.
#[verifier::external_type_specification]
#[verifier::external_body]
pub struct ExRandomNumberGenerator(RandomNumberGenerator);

/// `RandomNumberGenerator::seeded` builds a generator from a seed. Nothing is
/// claimed about the generator it returns.
pub assume_specification[ RandomNumberGenerator::seeded ](seed: u64) -> (rng: RandomNumberGenerator);

/// `RandomNumberGenerator::new` builds a generator seeded from the system's
/// entropy or, failing that, from the clock. Nothing is claimed about the
/// generator it returns.
pub assume_specification[ RandomNumberGenerator::new ]() -> (rng: RandomNumberGenerator);

/// `RandomNumberGenerator::range` on `i32`: draws a value that is at least
/// `min` and below `max`. The call panics on an empty range, which the
/// precondition rules out. Which value of the range comes back is not stated.
#[verifier::external_body]
pub(crate) fn roll(rng: &mut RandomNumberGenerator, min: i32, max: i32) -> (r: i32)
    requires
        min < max,
    ensures
        min <= r < max,
{
    rng.range(min, max)
}

} // verus!
