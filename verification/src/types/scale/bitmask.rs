//! Scales as sets of the twelve semitones of the octave, one bit each.
use vstd::prelude::*;

use crate::types::Interval;

verus! {

/// The semitones of the octave that a scale holds: bit `n` is set where the
/// scale has a note `n` semitones above its tonic, up to octaves.
#[derive(Debug, Clone, Copy, PartialEq, Eq, Hash, Structural)]
pub struct ScaleBitmask(pub u16);

/// The semitones reached after the first `k` steps, wrapped to eight bits.
pub open spec fn semitones_after(steps: Seq<Interval>, k: int) -> int
    decreases k,
{
    if k <= 0 {
        0
    } else {
        (semitones_after(steps, k - 1) + steps[k - 1].semitone_count()) % 256
    }
}

/// Whether one of the first `k` steps ends on the given semitone of the
/// octave.
pub open spec fn lands_on(steps: Seq<Interval>, k: int, pitch_class: int) -> bool {
    exists|m: int| 1 <= m <= k && #[trigger] semitones_after(steps, m) % 12 == pitch_class
}

impl ScaleBitmask {
    /// Whether the bit of a semitone of the octave is set. A number from 12
    /// on stands for the semitone that it is octaves above.
    pub open spec fn spec_contains(&self, pitch_class: u8) -> bool {
        self.0 & (1u16 << ((pitch_class % 12) as u16)) != 0
    }

    /// The mask of the notes reached by a list of steps, each step leading on
    /// from the note before it, the first from the tonic. The steps must not
    /// lead down.
    pub fn from_intervals(intervals: &[Interval]) -> (r: ScaleBitmask)
        requires
            forall|i: int|
                0 <= i < intervals@.len() ==> 0 <= (#[trigger] intervals@[i]).semitone_count()
                    <= i8::MAX,
        ensures
            r.0 < 4096,
            forall|pitch_class: u8|
                pitch_class < 12 ==> (#[trigger] r.spec_contains(pitch_class) <==> lands_on(
                    intervals@,
                    intervals@.len() as int,
                    pitch_class as int,
                )),
    {
        let mut mask: u16 = 0;
        let mut semitones: u8 = 0;
        let mut i: usize = 0;
        proof {
            assert forall|pitch_class: u8| pitch_class < 12 implies !(#[trigger] ScaleBitmask(
                mask,
            ).spec_contains(pitch_class)) by {
                assert(0u16 & (1u16 << ((pitch_class % 12) as u16)) == 0) by (bit_vector);
            }
        }
        while i < intervals.len()
            invariant
                i <= intervals.len(),
                forall|i: int|
                    0 <= i < intervals@.len() ==> 0 <= (
                    #[trigger] intervals@[i]).semitone_count() <= i8::MAX,
                semitones == semitones_after(intervals@, i as int),
                mask < 4096,
                forall|pitch_class: u8|
                    pitch_class < 12 ==> (#[trigger] ScaleBitmask(mask).spec_contains(pitch_class)
                        <==> lands_on(intervals@, i as int, pitch_class as int)),
            decreases intervals.len() - i,
        {
            let step: i8 = intervals[i].semitones();
            let sum: u16 = semitones as u16 + step as u16;
            semitones = (sum % 256) as u8;
            let bit: u16 = (semitones % 12) as u16;
            let ghost before = mask;
            mask = mask | (1u16 << bit);
            proof {
                assert(semitones == semitones_after(intervals@, i + 1));
                assert((before | (1u16 << bit)) < 4096) by (bit_vector)
                    requires
                        before < 4096,
                        bit < 12,
                ;
                assert forall|pitch_class: u8| pitch_class < 12 implies (#[trigger] ScaleBitmask(
                    mask,
                ).spec_contains(pitch_class) <==> lands_on(
                    intervals@,
                    i + 1,
                    pitch_class as int,
                )) by {
                    let probe: u16 = (pitch_class % 12) as u16;
                    assert(((before | (1u16 << bit)) & (1u16 << probe) != 0) <==> ((before & (1u16
                        << probe) != 0) || bit == probe)) by (bit_vector)
                        requires
                            bit < 12,
                            probe < 12,
                    ;
                    assert(ScaleBitmask(before).spec_contains(pitch_class) <==> lands_on(
                        intervals@,
                        i as int,
                        pitch_class as int,
                    ));
                    if lands_on(intervals@, i as int, pitch_class as int) {
                        let m = choose|m: int|
                            1 <= m <= i && #[trigger] semitones_after(intervals@, m) % 12
                                == pitch_class;
                        assert(1 <= m <= i + 1 && semitones_after(intervals@, m) % 12
                            == pitch_class);
                    }
                    if bit == probe {
                        assert(semitones_after(intervals@, i + 1) % 12 == pitch_class);
                    }
                    if lands_on(intervals@, i + 1, pitch_class as int) {
                        let m = choose|m: int|
                            1 <= m <= i + 1 && #[trigger] semitones_after(intervals@, m) % 12
                                == pitch_class;
                        if m <= i {
                            assert(lands_on(intervals@, i as int, pitch_class as int));
                        } else {
                            assert(bit == probe);
                        }
                    }
                }
            }
            i = i + 1;
        }
        ScaleBitmask(mask)
    }

    /// Whether the scale holds a semitone of the octave.
    #[verifier::when_used_as_spec(spec_contains)]
    pub fn contains(&self, pitch_class: u8) -> (r: bool)
        ensures
            r == self.spec_contains(pitch_class),
    {
        self.0 & (1u16 << ((pitch_class % 12) as u16)) != 0
    }
}

} // verus!
