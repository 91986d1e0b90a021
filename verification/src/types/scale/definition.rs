//! What defines a kind of scale.
use vstd::prelude::*;

use super::bitmask::ScaleBitmask;
use crate::types::Interval;

verus! {

/// A kind of scale: its name and the intervals of its notes from the tonic,
/// the unison first. A mode also names the scale that it is a mode of, and
/// the degree of that scale on which it starts.
///
/// `==` compares every field. Two definitions are the same kind of scale
/// where their intervals agree: see [`ScaleDefinition::same_intervals`].
#[derive(Debug, Clone, Copy, PartialEq, Eq, Hash)]
pub struct ScaleDefinition {
    /// What the scale is called, such as "Dorian".
    pub name: &'static str,
    /// The intervals from the tonic to each note, in rising order.
    pub intervals: &'static [Interval],
    /// For a mode, the degree of the parent scale on which it starts, the
    /// first degree being 0.
    pub degree_offset: Option<u8>,
    /// For a mode, the name of the parent scale.
    pub mode_of: Option<&'static str>,
    /// The semitones of the octave that the scale holds.
    pub bitmask: ScaleBitmask,
}

impl ScaleDefinition {
    /// Whether the intervals begin with the unison, so that the scale starts
    /// on its tonic.
    pub open spec fn starts_on_tonic(&self) -> bool {
        self.intervals@.len() > 0 && self.intervals@[0] == Interval::perfect_unison()
    }

    /// Whether two definitions list the same intervals in the same order.
    pub fn same_intervals(&self, other: &ScaleDefinition) -> (r: bool)
        ensures
            r == (self.intervals@ == other.intervals@),
    {
        if self.intervals.len() != other.intervals.len() {
            return false;
        }
        let mut i: usize = 0;
        while i < self.intervals.len()
            invariant
                i <= self.intervals.len(),
                self.intervals.len() == other.intervals.len(),
                forall|j: int| 0 <= j < i ==> self.intervals@[j] == other.intervals@[j],
            decreases self.intervals.len() - i,
        {
            if self.intervals[i] != other.intervals[i] {
                return false;
            }
            i = i + 1;
        }
        assert(self.intervals@ =~= other.intervals@);
        true
    }
}

} // verus!
