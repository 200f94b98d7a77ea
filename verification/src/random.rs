//! The bounded-random capability.  The generator is an external
//! collaborator of which nothing is promised; the bounding arithmetic is
//! proved for every value it may return.

use vstd::prelude::*;

verus! {

/// Relies on rand::random: some unsigned value; nothing is promised of
/// it.
#[verifier::external_body]
fn random_u32() -> u32 {
    ::rand::random::<u32>()
}

/// The bounded-random capability: a value in `[min, max)`, whatever the
/// underlying generator returned.  The range must be non-empty.
pub fn rand(min: u32, max: u32) -> (r: u32)
    requires
        min < max,
    ensures
        min <= r < max,
{
    let raw = random_u32();
    let span = max - min;
    min + raw % span
}

} // verus!
