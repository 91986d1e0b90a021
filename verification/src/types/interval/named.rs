//! The intervals that have a name, from the unison to the fourteenths.
use vstd::prelude::*;

use super::Interval;

verus! {

impl Interval {
    /// The perfect unison.
    #[verifier::allow_in_spec]
    pub fn perfect_unison() -> Interval
        returns
            (Interval { fifths: 0i8, octaves: 0i8 }),
    {
        Interval { fifths: 0, octaves: 0 }
    }

    /// The diminished second.
    #[verifier::allow_in_spec]
    pub fn diminished_second() -> Interval
        returns
            (Interval { fifths: -12i8, octaves: 0i8 }),
    {
        Interval { fifths: -12, octaves: 0 }
    }

    /// The minor second.
    #[verifier::allow_in_spec]
    pub fn minor_second() -> Interval
        returns
            (Interval { fifths: -5i8, octaves: 0i8 }),
    {
        Interval { fifths: -5, octaves: 0 }
    }

    /// The major second.
    #[verifier::allow_in_spec]
    pub fn major_second() -> Interval
        returns
            (Interval { fifths: 2i8, octaves: 0i8 }),
    {
        Interval { fifths: 2, octaves: 0 }
    }

    /// The augmented second.
    #[verifier::allow_in_spec]
    pub fn augmented_second() -> Interval
        returns
            (Interval { fifths: 9i8, octaves: 0i8 }),
    {
        Interval { fifths: 9, octaves: 0 }
    }

    /// The diminished third.
    #[verifier::allow_in_spec]
    pub fn diminished_third() -> Interval
        returns
            (Interval { fifths: -10i8, octaves: 0i8 }),
    {
        Interval { fifths: -10, octaves: 0 }
    }

    /// The minor third.
    #[verifier::allow_in_spec]
    pub fn minor_third() -> Interval
        returns
            (Interval { fifths: -3i8, octaves: 0i8 }),
    {
        Interval { fifths: -3, octaves: 0 }
    }

    /// The major third.
    #[verifier::allow_in_spec]
    pub fn major_third() -> Interval
        returns
            (Interval { fifths: 4i8, octaves: 0i8 }),
    {
        Interval { fifths: 4, octaves: 0 }
    }

    /// The augmented third.
    #[verifier::allow_in_spec]
    pub fn augmented_third() -> Interval
        returns
            (Interval { fifths: 11i8, octaves: 0i8 }),
    {
        Interval { fifths: 11, octaves: 0 }
    }

    /// The diminished fourth.
    #[verifier::allow_in_spec]
    pub fn diminished_fourth() -> Interval
        returns
            (Interval { fifths: -8i8, octaves: 0i8 }),
    {
        Interval { fifths: -8, octaves: 0 }
    }

    /// The perfect fourth.
    #[verifier::allow_in_spec]
    pub fn perfect_fourth() -> Interval
        returns
            (Interval { fifths: -1i8, octaves: 0i8 }),
    {
        Interval { fifths: -1, octaves: 0 }
    }

    /// The augmented fourth.
    #[verifier::allow_in_spec]
    pub fn augmented_fourth() -> Interval
        returns
            (Interval { fifths: 6i8, octaves: 0i8 }),
    {
        Interval { fifths: 6, octaves: 0 }
    }

    /// The diminished fifth.
    #[verifier::allow_in_spec]
    pub fn diminished_fifth() -> Interval
        returns
            (Interval { fifths: -6i8, octaves: 0i8 }),
    {
        Interval { fifths: -6, octaves: 0 }
    }

    /// The perfect fifth.
    #[verifier::allow_in_spec]
    pub fn perfect_fifth() -> Interval
        returns
            (Interval { fifths: 1i8, octaves: 0i8 }),
    {
        Interval { fifths: 1, octaves: 0 }
    }

    /// The augmented fifth.
    #[verifier::allow_in_spec]
    pub fn augmented_fifth() -> Interval
        returns
            (Interval { fifths: 8i8, octaves: 0i8 }),
    {
        Interval { fifths: 8, octaves: 0 }
    }

    /// The diminished sixth.
    #[verifier::allow_in_spec]
    pub fn diminished_sixth() -> Interval
        returns
            (Interval { fifths: -11i8, octaves: 0i8 }),
    {
        Interval { fifths: -11, octaves: 0 }
    }

    /// The minor sixth.
    #[verifier::allow_in_spec]
    pub fn minor_sixth() -> Interval
        returns
            (Interval { fifths: -4i8, octaves: 0i8 }),
    {
        Interval { fifths: -4, octaves: 0 }
    }

    /// The major sixth.
    #[verifier::allow_in_spec]
    pub fn major_sixth() -> Interval
        returns
            (Interval { fifths: 3i8, octaves: 0i8 }),
    {
        Interval { fifths: 3, octaves: 0 }
    }

    /// The augmented sixth.
    #[verifier::allow_in_spec]
    pub fn augmented_sixth() -> Interval
        returns
            (Interval { fifths: 10i8, octaves: 0i8 }),
    {
        Interval { fifths: 10, octaves: 0 }
    }

    /// The diminished seventh.
    #[verifier::allow_in_spec]
    pub fn diminished_seventh() -> Interval
        returns
            (Interval { fifths: -9i8, octaves: 0i8 }),
    {
        Interval { fifths: -9, octaves: 0 }
    }

    /// The minor seventh.
    #[verifier::allow_in_spec]
    pub fn minor_seventh() -> Interval
        returns
            (Interval { fifths: -2i8, octaves: 0i8 }),
    {
        Interval { fifths: -2, octaves: 0 }
    }

    /// The major seventh.
    #[verifier::allow_in_spec]
    pub fn major_seventh() -> Interval
        returns
            (Interval { fifths: 5i8, octaves: 0i8 }),
    {
        Interval { fifths: 5, octaves: 0 }
    }

    /// The augmented seventh.
    #[verifier::allow_in_spec]
    pub fn augmented_seventh() -> Interval
        returns
            (Interval { fifths: 12i8, octaves: 0i8 }),
    {
        Interval { fifths: 12, octaves: 0 }
    }

    /// The diminished octave.
    #[verifier::allow_in_spec]
    pub fn diminished_octave() -> Interval
        returns
            (Interval { fifths: -7i8, octaves: 0i8 }),
    {
        Interval { fifths: -7, octaves: 0 }
    }

    /// The perfect octave.
    #[verifier::allow_in_spec]
    pub fn octave() -> Interval
        returns
            (Interval { fifths: 0i8, octaves: 1i8 }),
    {
        Interval { fifths: 0, octaves: 1 }
    }

    /// The augmented octave.
    #[verifier::allow_in_spec]
    pub fn augmented_octave() -> Interval
        returns
            (Interval { fifths: 7i8, octaves: 1i8 }),
    {
        Interval { fifths: 7, octaves: 1 }
    }

    /// The diminished ninth.
    #[verifier::allow_in_spec]
    pub fn diminished_ninth() -> Interval
        returns
            (Interval { fifths: -12i8, octaves: 1i8 }),
    {
        Interval { fifths: -12, octaves: 1 }
    }

    /// The minor ninth.
    #[verifier::allow_in_spec]
    pub fn minor_ninth() -> Interval
        returns
            (Interval { fifths: -5i8, octaves: 1i8 }),
    {
        Interval { fifths: -5, octaves: 1 }
    }

    /// The major ninth.
    #[verifier::allow_in_spec]
    pub fn major_ninth() -> Interval
        returns
            (Interval { fifths: 2i8, octaves: 1i8 }),
    {
        Interval { fifths: 2, octaves: 1 }
    }

    /// The augmented ninth.
    #[verifier::allow_in_spec]
    pub fn augmented_ninth() -> Interval
        returns
            (Interval { fifths: 9i8, octaves: 1i8 }),
    {
        Interval { fifths: 9, octaves: 1 }
    }

    /// The diminished tenth.
    #[verifier::allow_in_spec]
    pub fn diminished_tenth() -> Interval
        returns
            (Interval { fifths: -10i8, octaves: 1i8 }),
    {
        Interval { fifths: -10, octaves: 1 }
    }

    /// The minor tenth.
    #[verifier::allow_in_spec]
    pub fn minor_tenth() -> Interval
        returns
            (Interval { fifths: -3i8, octaves: 1i8 }),
    {
        Interval { fifths: -3, octaves: 1 }
    }

    /// The major tenth.
    #[verifier::allow_in_spec]
    pub fn major_tenth() -> Interval
        returns
            (Interval { fifths: 4i8, octaves: 1i8 }),
    {
        Interval { fifths: 4, octaves: 1 }
    }

    /// The augmented tenth.
    #[verifier::allow_in_spec]
    pub fn augmented_tenth() -> Interval
        returns
            (Interval { fifths: 11i8, octaves: 1i8 }),
    {
        Interval { fifths: 11, octaves: 1 }
    }

    /// The diminished eleventh.
    #[verifier::allow_in_spec]
    pub fn diminished_eleventh() -> Interval
        returns
            (Interval { fifths: -8i8, octaves: 1i8 }),
    {
        Interval { fifths: -8, octaves: 1 }
    }

    /// The perfect eleventh.
    #[verifier::allow_in_spec]
    pub fn perfect_eleventh() -> Interval
        returns
            (Interval { fifths: -1i8, octaves: 1i8 }),
    {
        Interval { fifths: -1, octaves: 1 }
    }

    /// The augmented eleventh.
    #[verifier::allow_in_spec]
    pub fn augmented_eleventh() -> Interval
        returns
            (Interval { fifths: 6i8, octaves: 1i8 }),
    {
        Interval { fifths: 6, octaves: 1 }
    }

    /// The diminished twelfth.
    #[verifier::allow_in_spec]
    pub fn diminished_twelfth() -> Interval
        returns
            (Interval { fifths: -6i8, octaves: 1i8 }),
    {
        Interval { fifths: -6, octaves: 1 }
    }

    /// The perfect twelfth.
    #[verifier::allow_in_spec]
    pub fn perfect_twelfth() -> Interval
        returns
            (Interval { fifths: 1i8, octaves: 1i8 }),
    {
        Interval { fifths: 1, octaves: 1 }
    }

    /// The augmented twelfth.
    #[verifier::allow_in_spec]
    pub fn augmented_twelfth() -> Interval
        returns
            (Interval { fifths: 8i8, octaves: 1i8 }),
    {
        Interval { fifths: 8, octaves: 1 }
    }

    /// The diminished thirteenth.
    #[verifier::allow_in_spec]
    pub fn diminished_thirteenth() -> Interval
        returns
            (Interval { fifths: -11i8, octaves: 1i8 }),
    {
        Interval { fifths: -11, octaves: 1 }
    }

    /// The minor thirteenth.
    #[verifier::allow_in_spec]
    pub fn minor_thirteenth() -> Interval
        returns
            (Interval { fifths: -4i8, octaves: 1i8 }),
    {
        Interval { fifths: -4, octaves: 1 }
    }

    /// The major thirteenth.
    #[verifier::allow_in_spec]
    pub fn major_thirteenth() -> Interval
        returns
            (Interval { fifths: 3i8, octaves: 1i8 }),
    {
        Interval { fifths: 3, octaves: 1 }
    }

    /// The augmented thirteenth.
    #[verifier::allow_in_spec]
    pub fn augmented_thirteenth() -> Interval
        returns
            (Interval { fifths: 10i8, octaves: 1i8 }),
    {
        Interval { fifths: 10, octaves: 1 }
    }

    /// The diminished fourteenth.
    #[verifier::allow_in_spec]
    pub fn diminished_fourteenth() -> Interval
        returns
            (Interval { fifths: -9i8, octaves: 1i8 }),
    {
        Interval { fifths: -9, octaves: 1 }
    }

    /// The minor fourteenth.
    #[verifier::allow_in_spec]
    pub fn minor_fourteenth() -> Interval
        returns
            (Interval { fifths: -2i8, octaves: 1i8 }),
    {
        Interval { fifths: -2, octaves: 1 }
    }

    /// The major fourteenth.
    #[verifier::allow_in_spec]
    pub fn major_fourteenth() -> Interval
        returns
            (Interval { fifths: 5i8, octaves: 1i8 }),
    {
        Interval { fifths: 5, octaves: 1 }
    }

    /// The augmented fourteenth.
    #[verifier::allow_in_spec]
    pub fn augmented_fourteenth() -> Interval
        returns
            (Interval { fifths: 12i8, octaves: 1i8 }),
    {
        Interval { fifths: 12, octaves: 1 }
    }
}

} // verus!
