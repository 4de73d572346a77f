//! The single source of randomness for the combat rules: a uniform draw in
//! `[0, 1000)`, used for critical-hit checks and spawn-type selection.

use vstd::prelude::*;

verus! {

/// Relies on rand::random: a uniformly drawn 32-bit value.  Nothing can be
/// promised about which value comes back.
#[verifier::external_body]
fn random_u32() -> u32 {
    rand::random::<u32>()
}

/// Draws a fresh roll in `[0, 1000)`: one thousandth of probability mass per
/// outcome.  Two calls may return different values.
pub fn roll_per_mille() -> (r: u32)
    ensures
        r < 1000,
{
    random_u32() % 1000
}

} // verus!
