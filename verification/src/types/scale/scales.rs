//! The kinds of scale that the library knows by name.
use vstd::prelude::*;

use super::bitmask::ScaleBitmask;
use super::definition::ScaleDefinition;
use crate::types::Interval;

verus! {

/// Whether a definition has the given name, intervals, parent scale and
/// mask of semitones, and starts on its tonic.
pub open spec fn defines(
    definition: ScaleDefinition,
    name: Seq<char>,
    intervals: Seq<Interval>,
    mode_of: Option<(Seq<char>, u8)>,
    bitmask: u16,
) -> bool {
    &&& definition.name@ == name
    &&& definition.intervals@ == intervals
    &&& definition.starts_on_tonic()
    &&& match mode_of {
        Some((parent, offset)) => {
            &&& definition.mode_of matches Some(p) && p@ == parent
            &&& definition.degree_offset == Some(offset)
        },
        None => definition.mode_of is None && definition.degree_offset is None,
    }
    &&& definition.bitmask == ScaleBitmask(bitmask)
}

/// The intervals of the Ionian scale from its tonic.
pub open spec fn ionian_intervals() -> Seq<Interval> {
    seq![
        Interval::perfect_unison(),
        Interval::major_second(),
        Interval::major_third(),
        Interval::perfect_fourth(),
        Interval::perfect_fifth(),
        Interval::major_sixth(),
        Interval::major_seventh(),
    ]
}

/// Whether a definition is that of the Ionian scale.
pub open spec fn is_ionian(definition: ScaleDefinition) -> bool {
    defines(definition, "Ionian"@, ionian_intervals(), None, 0b101010110101)
}

/// The Ionian scale.
pub fn ionian() -> (r: ScaleDefinition)
    ensures
        is_ionian(r),
{
    ScaleDefinition {
        name: "Ionian",
        intervals: &[
            Interval { fifths: 0, octaves: 0 },
            Interval { fifths: 2, octaves: 0 },
            Interval { fifths: 4, octaves: 0 },
            Interval { fifths: -1, octaves: 0 },
            Interval { fifths: 1, octaves: 0 },
            Interval { fifths: 3, octaves: 0 },
            Interval { fifths: 5, octaves: 0 },
        ],
        degree_offset: None,
        mode_of: None,
        bitmask: ScaleBitmask(0b101010110101),
    }
}

/// The intervals of the Dorian scale from its tonic.
pub open spec fn dorian_intervals() -> Seq<Interval> {
    seq![
        Interval::perfect_unison(),
        Interval::major_second(),
        Interval::minor_third(),
        Interval::perfect_fourth(),
        Interval::perfect_fifth(),
        Interval::major_sixth(),
        Interval::minor_seventh(),
    ]
}

/// Whether a definition is that of the Dorian scale.
pub open spec fn is_dorian(definition: ScaleDefinition) -> bool {
    defines(definition, "Dorian"@, dorian_intervals(), Some(("Ionian"@, 1u8)), 0b011010101101)
}

/// The Dorian mode: the Ionian scale begun on its second note.
pub fn dorian() -> (r: ScaleDefinition)
    ensures
        is_dorian(r),
{
    ScaleDefinition {
        name: "Dorian",
        intervals: &[
            Interval { fifths: 0, octaves: 0 },
            Interval { fifths: 2, octaves: 0 },
            Interval { fifths: -3, octaves: 0 },
            Interval { fifths: -1, octaves: 0 },
            Interval { fifths: 1, octaves: 0 },
            Interval { fifths: 3, octaves: 0 },
            Interval { fifths: -2, octaves: 0 },
        ],
        degree_offset: Some(1),
        mode_of: Some("Ionian"),
        bitmask: ScaleBitmask(0b011010101101),
    }
}

/// The intervals of the Phrygian scale from its tonic.
pub open spec fn phrygian_intervals() -> Seq<Interval> {
    seq![
        Interval::perfect_unison(),
        Interval::minor_second(),
        Interval::minor_third(),
        Interval::perfect_fourth(),
        Interval::perfect_fifth(),
        Interval::minor_sixth(),
        Interval::minor_seventh(),
    ]
}

/// Whether a definition is that of the Phrygian scale.
pub open spec fn is_phrygian(definition: ScaleDefinition) -> bool {
    defines(definition, "Phrygian"@, phrygian_intervals(), Some(("Ionian"@, 2u8)), 0b010110101011)
}

/// The Phrygian mode: the Ionian scale begun on its third note.
pub fn phrygian() -> (r: ScaleDefinition)
    ensures
        is_phrygian(r),
{
    ScaleDefinition {
        name: "Phrygian",
        intervals: &[
            Interval { fifths: 0, octaves: 0 },
            Interval { fifths: -5, octaves: 0 },
            Interval { fifths: -3, octaves: 0 },
            Interval { fifths: -1, octaves: 0 },
            Interval { fifths: 1, octaves: 0 },
            Interval { fifths: -4, octaves: 0 },
            Interval { fifths: -2, octaves: 0 },
        ],
        degree_offset: Some(2),
        mode_of: Some("Ionian"),
        bitmask: ScaleBitmask(0b010110101011),
    }
}

/// The intervals of the Lydian scale from its tonic.
pub open spec fn lydian_intervals() -> Seq<Interval> {
    seq![
        Interval::perfect_unison(),
        Interval::major_second(),
        Interval::major_third(),
        Interval::augmented_fourth(),
        Interval::perfect_fifth(),
        Interval::major_sixth(),
        Interval::major_seventh(),
    ]
}

/// Whether a definition is that of the Lydian scale.
pub open spec fn is_lydian(definition: ScaleDefinition) -> bool {
    defines(definition, "Lydian"@, lydian_intervals(), Some(("Ionian"@, 3u8)), 0b101011010101)
}

/// The Lydian mode: the Ionian scale begun on its fourth note.
pub fn lydian() -> (r: ScaleDefinition)
    ensures
        is_lydian(r),
{
    ScaleDefinition {
        name: "Lydian",
        intervals: &[
            Interval { fifths: 0, octaves: 0 },
            Interval { fifths: 2, octaves: 0 },
            Interval { fifths: 4, octaves: 0 },
            Interval { fifths: 6, octaves: 0 },
            Interval { fifths: 1, octaves: 0 },
            Interval { fifths: 3, octaves: 0 },
            Interval { fifths: 5, octaves: 0 },
        ],
        degree_offset: Some(3),
        mode_of: Some("Ionian"),
        bitmask: ScaleBitmask(0b101011010101),
    }
}

/// The intervals of the Mixolydian scale from its tonic.
pub open spec fn mixolydian_intervals() -> Seq<Interval> {
    seq![
        Interval::perfect_unison(),
        Interval::major_second(),
        Interval::major_third(),
        Interval::perfect_fourth(),
        Interval::perfect_fifth(),
        Interval::major_sixth(),
        Interval::minor_seventh(),
    ]
}

/// Whether a definition is that of the Mixolydian scale.
pub open spec fn is_mixolydian(definition: ScaleDefinition) -> bool {
    defines(definition, "Mixolydian"@, mixolydian_intervals(), Some(("Ionian"@, 4u8)), 0b011010110101)
}

/// The Mixolydian mode: the Ionian scale begun on its fifth note.
pub fn mixolydian() -> (r: ScaleDefinition)
    ensures
        is_mixolydian(r),
{
    ScaleDefinition {
        name: "Mixolydian",
        intervals: &[
            Interval { fifths: 0, octaves: 0 },
            Interval { fifths: 2, octaves: 0 },
            Interval { fifths: 4, octaves: 0 },
            Interval { fifths: -1, octaves: 0 },
            Interval { fifths: 1, octaves: 0 },
            Interval { fifths: 3, octaves: 0 },
            Interval { fifths: -2, octaves: 0 },
        ],
        degree_offset: Some(4),
        mode_of: Some("Ionian"),
        bitmask: ScaleBitmask(0b011010110101),
    }
}

/// The intervals of the Aeolian scale from its tonic.
pub open spec fn aeolian_intervals() -> Seq<Interval> {
    seq![
        Interval::perfect_unison(),
        Interval::major_second(),
        Interval::minor_third(),
        Interval::perfect_fourth(),
        Interval::perfect_fifth(),
        Interval::minor_sixth(),
        Interval::minor_seventh(),
    ]
}

/// Whether a definition is that of the Aeolian scale.
pub open spec fn is_aeolian(definition: ScaleDefinition) -> bool {
    defines(definition, "Aeolian"@, aeolian_intervals(), Some(("Ionian"@, 5u8)), 0b010110101101)
}

/// The Aeolian mode: the Ionian scale begun on its sixth note.
pub fn aeolian() -> (r: ScaleDefinition)
    ensures
        is_aeolian(r),
{
    ScaleDefinition {
        name: "Aeolian",
        intervals: &[
            Interval { fifths: 0, octaves: 0 },
            Interval { fifths: 2, octaves: 0 },
            Interval { fifths: -3, octaves: 0 },
            Interval { fifths: -1, octaves: 0 },
            Interval { fifths: 1, octaves: 0 },
            Interval { fifths: -4, octaves: 0 },
            Interval { fifths: -2, octaves: 0 },
        ],
        degree_offset: Some(5),
        mode_of: Some("Ionian"),
        bitmask: ScaleBitmask(0b010110101101),
    }
}

/// The intervals of the Harmonic Minor scale from its tonic.
pub open spec fn harmonic_minor_intervals() -> Seq<Interval> {
    seq![
        Interval::perfect_unison(),
        Interval::major_second(),
        Interval::minor_third(),
        Interval::perfect_fourth(),
        Interval::perfect_fifth(),
        Interval::minor_sixth(),
        Interval::major_seventh(),
    ]
}

/// Whether a definition is that of the Harmonic Minor scale.
pub open spec fn is_harmonic_minor(definition: ScaleDefinition) -> bool {
    defines(definition, "Harmonic Minor"@, harmonic_minor_intervals(), None, 0b100110101101)
}

/// The Harmonic Minor scale.
pub fn harmonic_minor() -> (r: ScaleDefinition)
    ensures
        is_harmonic_minor(r),
{
    ScaleDefinition {
        name: "Harmonic Minor",
        intervals: &[
            Interval { fifths: 0, octaves: 0 },
            Interval { fifths: 2, octaves: 0 },
            Interval { fifths: -3, octaves: 0 },
            Interval { fifths: -1, octaves: 0 },
            Interval { fifths: 1, octaves: 0 },
            Interval { fifths: -4, octaves: 0 },
            Interval { fifths: 5, octaves: 0 },
        ],
        degree_offset: None,
        mode_of: None,
        bitmask: ScaleBitmask(0b100110101101),
    }
}

/// The intervals of the Melodic Minor scale from its tonic.
pub open spec fn melodic_minor_intervals() -> Seq<Interval> {
    seq![
        Interval::perfect_unison(),
        Interval::major_second(),
        Interval::minor_third(),
        Interval::perfect_fourth(),
        Interval::perfect_fifth(),
        Interval::major_sixth(),
        Interval::major_seventh(),
    ]
}

/// Whether a definition is that of the Melodic Minor scale.
pub open spec fn is_melodic_minor(definition: ScaleDefinition) -> bool {
    defines(definition, "Melodic Minor"@, melodic_minor_intervals(), None, 0b101010101101)
}

/// The Melodic Minor scale.
pub fn melodic_minor() -> (r: ScaleDefinition)
    ensures
        is_melodic_minor(r),
{
    ScaleDefinition {
        name: "Melodic Minor",
        intervals: &[
            Interval { fifths: 0, octaves: 0 },
            Interval { fifths: 2, octaves: 0 },
            Interval { fifths: -3, octaves: 0 },
            Interval { fifths: -1, octaves: 0 },
            Interval { fifths: 1, octaves: 0 },
            Interval { fifths: 3, octaves: 0 },
            Interval { fifths: 5, octaves: 0 },
        ],
        degree_offset: None,
        mode_of: None,
        bitmask: ScaleBitmask(0b101010101101),
    }
}

/// The intervals of the Locrian scale from its tonic.
pub open spec fn locrian_intervals() -> Seq<Interval> {
    seq![
        Interval::perfect_unison(),
        Interval::minor_second(),
        Interval::minor_third(),
        Interval::perfect_fourth(),
        Interval::diminished_fifth(),
        Interval::minor_sixth(),
        Interval::minor_seventh(),
    ]
}

/// Whether a definition is that of the Locrian scale.
pub open spec fn is_locrian(definition: ScaleDefinition) -> bool {
    defines(definition, "Locrian"@, locrian_intervals(), Some(("Ionian"@, 6u8)), 0b010101101011)
}

/// The Locrian mode: the Ionian scale begun on its seventh note.
pub fn locrian() -> (r: ScaleDefinition)
    ensures
        is_locrian(r),
{
    ScaleDefinition {
        name: "Locrian",
        intervals: &[
            Interval { fifths: 0, octaves: 0 },
            Interval { fifths: -5, octaves: 0 },
            Interval { fifths: -3, octaves: 0 },
            Interval { fifths: -1, octaves: 0 },
            Interval { fifths: -6, octaves: 0 },
            Interval { fifths: -4, octaves: 0 },
            Interval { fifths: -2, octaves: 0 },
        ],
        degree_offset: Some(6),
        mode_of: Some("Ionian"),
        bitmask: ScaleBitmask(0b010101101011),
    }
}

/// The intervals of the Whole Tone scale from its tonic.
pub open spec fn whole_tone_intervals() -> Seq<Interval> {
    seq![
        Interval::perfect_unison(),
        Interval::major_second(),
        Interval::major_third(),
        Interval::augmented_fourth(),
        Interval::augmented_fifth(),
        Interval::augmented_sixth(),
    ]
}

/// Whether a definition is that of the Whole Tone scale.
pub open spec fn is_whole_tone(definition: ScaleDefinition) -> bool {
    defines(definition, "Whole Tone"@, whole_tone_intervals(), None, 0b010101010101)
}

/// The Whole Tone scale.
pub fn whole_tone() -> (r: ScaleDefinition)
    ensures
        is_whole_tone(r),
{
    ScaleDefinition {
        name: "Whole Tone",
        intervals: &[
            Interval { fifths: 0, octaves: 0 },
            Interval { fifths: 2, octaves: 0 },
            Interval { fifths: 4, octaves: 0 },
            Interval { fifths: 6, octaves: 0 },
            Interval { fifths: 8, octaves: 0 },
            Interval { fifths: 10, octaves: 0 },
        ],
        degree_offset: None,
        mode_of: None,
        bitmask: ScaleBitmask(0b010101010101),
    }
}

/// The intervals of the Hungarian Minor scale from its tonic.
pub open spec fn hungarian_minor_intervals() -> Seq<Interval> {
    seq![
        Interval::perfect_unison(),
        Interval::major_second(),
        Interval::minor_third(),
        Interval::augmented_fourth(),
        Interval::perfect_fifth(),
        Interval::minor_sixth(),
        Interval::major_seventh(),
    ]
}

/// Whether a definition is that of the Hungarian Minor scale.
pub open spec fn is_hungarian_minor(definition: ScaleDefinition) -> bool {
    defines(definition, "Hungarian Minor"@, hungarian_minor_intervals(), None, 0b100111001101)
}

/// The Hungarian Minor scale.
pub fn hungarian_minor() -> (r: ScaleDefinition)
    ensures
        is_hungarian_minor(r),
{
    ScaleDefinition {
        name: "Hungarian Minor",
        intervals: &[
            Interval { fifths: 0, octaves: 0 },
            Interval { fifths: 2, octaves: 0 },
            Interval { fifths: -3, octaves: 0 },
            Interval { fifths: 6, octaves: 0 },
            Interval { fifths: 1, octaves: 0 },
            Interval { fifths: -4, octaves: 0 },
            Interval { fifths: 5, octaves: 0 },
        ],
        degree_offset: None,
        mode_of: None,
        bitmask: ScaleBitmask(0b100111001101),
    }
}

/// The intervals of the Altered scale from its tonic.
pub open spec fn altered_intervals() -> Seq<Interval> {
    seq![
        Interval::perfect_unison(),
        Interval::minor_second(),
        Interval::minor_third(),
        Interval::diminished_fourth(),
        Interval::diminished_fifth(),
        Interval::minor_sixth(),
        Interval::minor_seventh(),
    ]
}

/// Whether a definition is that of the Altered scale.
pub open spec fn is_altered(definition: ScaleDefinition) -> bool {
    defines(definition, "Altered"@, altered_intervals(), None, 0b010101011011)
}

/// The Altered scale.
pub fn altered() -> (r: ScaleDefinition)
    ensures
        is_altered(r),
{
    ScaleDefinition {
        name: "Altered",
        intervals: &[
            Interval { fifths: 0, octaves: 0 },
            Interval { fifths: -5, octaves: 0 },
            Interval { fifths: -3, octaves: 0 },
            Interval { fifths: -8, octaves: 0 },
            Interval { fifths: -6, octaves: 0 },
            Interval { fifths: -4, octaves: 0 },
            Interval { fifths: -2, octaves: 0 },
        ],
        degree_offset: None,
        mode_of: None,
        bitmask: ScaleBitmask(0b010101011011),
    }
}

/// Every kind of scale that the library knows by name.
pub fn registry() -> (r: Vec<ScaleDefinition>)
    ensures
        r@.len() == 12,
        is_ionian(r@[0]),
        is_dorian(r@[1]),
        is_phrygian(r@[2]),
        is_lydian(r@[3]),
        is_mixolydian(r@[4]),
        is_aeolian(r@[5]),
        is_harmonic_minor(r@[6]),
        is_melodic_minor(r@[7]),
        is_locrian(r@[8]),
        is_whole_tone(r@[9]),
        is_hungarian_minor(r@[10]),
        is_altered(r@[11]),
{
    vec![
        ionian(),
        dorian(),
        phrygian(),
        lydian(),
        mixolydian(),
        aeolian(),
        harmonic_minor(),
        melodic_minor(),
        locrian(),
        whole_tone(),
        hungarian_minor(),
        altered(),
    ]
}

} // verus!
