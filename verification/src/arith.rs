//! Remainders that are never negative.
use vstd::prelude::*;

verus! {

/// The remainder of a number by twelve, from 0 to 11 also for a negative
/// number: the semitone of the octave.
pub fn wrap_octave(n: i32) -> (r: i32)
    ensures
        r == n % 12,
        0 <= r < 12,
{
    (n % 12 + 12) % 12
}

/// The remainder of a number by seven, from 0 to 6 also for a negative
/// number: the place in the cycle of the letters.
pub fn wrap_letters(n: i32) -> (r: i32)
    ensures
        r == n % 7,
        0 <= r < 7,
{
    (n % 7 + 7) % 7
}

} // verus!
