//! Ways of moving a pitch by a number of semitones.
use vstd::prelude::*;

use crate::types::Pitch;

pub mod chromatic;
pub mod reach;

pub use chromatic::ChromaticTransposer;

verus! {

/// A way of transposing a pitch by semitones. An implementation says which
/// inputs it accepts and what it returns for them.
pub trait Transposer {
    /// The pitches and offsets that the transposer can handle.
    spec fn accepts(pitch: Pitch, interval: i8) -> bool;

    /// The pitch that the transposer returns.
    spec fn transposed(pitch: Pitch, interval: i8) -> Pitch;

    /// Moves a pitch by so many semitones, up for a positive number.
    fn transpose(pitch: Pitch, interval: i8) -> (r: Pitch)
        requires
            Self::accepts(pitch, interval),
        ensures
            r == Self::transposed(pitch, interval),
    ;

    /// What the transposer is called.
    fn name() -> &'static str;
}

} // verus!
