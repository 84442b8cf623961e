use crate::constants::ROLL_SCALE;
use vstd::prelude::*;

verus! {

/// Largest upper bound handed to the generator: far below the point where
/// the generator's `f64` scaling could round a sample up to `high`.
pub const GEN_RANGE_LIMIT: u32 = 1_048_576;

/// Calls `macroquad::rand::gen_range::<u32>` (the quad-rand generator that
/// macroquad re-exports). For integers it scales a 32-bit sample taken from
/// `[0, 1)` onto `[low, high)` and truncates, so the value lies in
/// `low..high`. Which value comes out depends on the generator's hidden
/// state: nothing more is stated of it.
#[verifier::external_body]
pub(crate) fn gen_range_u32(low: u32, high: u32) -> (r: u32)
    requires
        low < high,
        high <= GEN_RANGE_LIMIT,
    ensures
        low <= r < high,
{
    macroquad::rand::gen_range(low, high)
}

/// A uniform sample of `0..ROLL_SCALE` from the game's generator.
pub fn random_roll() -> (r: u32)
    ensures
        r < ROLL_SCALE,
{
    gen_range_u32(0, ROLL_SCALE)
}

/// A fair coin from the game's generator: `true` with `gen_range(0, 2) == 0`.
pub fn random_coin() -> (heads: bool) {
    gen_range_u32(0, 2) == 0
}

} // verus!
