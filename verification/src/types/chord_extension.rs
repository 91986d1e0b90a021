//! What can be added to a triad, taken from it or changed in it.
use vstd::prelude::*;

use super::Interval;

verus! {

/// An extension or alteration of a triad.
#[derive(Debug, Clone, Copy, PartialEq, Eq, Hash, Structural)]
pub enum ChordExtension {
    /// A seventh above the root.
    Seventh(SeventhType),
    /// A ninth above the root.
    Ninth(NinthType),
    /// An eleventh above the root.
    Eleventh(EleventhType),
    /// A thirteenth above the root.
    Thirteenth(ThirteenthType),
    /// A note added without the extensions below it.
    Add(AddedNote),
    /// A second or a fourth in the place of the third.
    Sus(SuspendedType),
    /// A lowered or a raised fifth.
    AlteredFifth(AlteredFifthType),
    /// A lowered or a raised ninth.
    AlteredNinth(AlteredNinthType),
    /// A note left out.
    Omit(OmittedNote),
}

/// The kinds of seventh chord.
#[derive(Debug, Clone, Copy, PartialEq, Eq, Hash, Structural)]
pub enum SeventhType {
    /// A major triad with a minor seventh.
    Dominant,
    /// A major triad with a major seventh.
    Major,
    /// A minor triad with a minor seventh.
    Minor,
    /// A diminished triad with a minor seventh.
    HalfDiminished,
    /// A diminished triad with a diminished seventh.
    Diminished,
}

/// The kinds of ninth.
#[derive(Debug, Clone, Copy, PartialEq, Eq, Hash, Structural)]
pub enum NinthType {
    /// The major ninth.
    Natural,
    /// The minor ninth.
    Flat,
    /// The augmented ninth.
    Sharp,
}

/// The kinds of eleventh.
#[derive(Debug, Clone, Copy, PartialEq, Eq, Hash, Structural)]
pub enum EleventhType {
    /// The perfect eleventh.
    Natural,
    /// The augmented eleventh.
    Sharp,
}

/// The kinds of thirteenth.
#[derive(Debug, Clone, Copy, PartialEq, Eq, Hash, Structural)]
pub enum ThirteenthType {
    /// The major thirteenth.
    Natural,
    /// The minor thirteenth.
    Flat,
}

/// The notes that are added to a triad by themselves.
#[derive(Debug, Clone, Copy, PartialEq, Eq, Hash, Structural)]
pub enum AddedNote {
    /// The major second.
    Add2,
    /// The perfect fourth.
    Add4,
    /// The major sixth.
    Add6,
    /// The minor sixth.
    AddFlat6,
}

/// The notes that can stand in the place of the third.
#[derive(Debug, Clone, Copy, PartialEq, Eq, Hash, Structural)]
pub enum SuspendedType {
    /// The major second.
    Sus2,
    /// The perfect fourth.
    Sus4,
}

/// The ways of altering the fifth.
#[derive(Debug, Clone, Copy, PartialEq, Eq, Hash, Structural)]
pub enum AlteredFifthType {
    /// The diminished fifth.
    Flat,
    /// The augmented fifth.
    Sharp,
}

/// The ways of altering the ninth.
#[derive(Debug, Clone, Copy, PartialEq, Eq, Hash, Structural)]
pub enum AlteredNinthType {
    /// The minor ninth.
    Flat,
    /// The augmented ninth.
    Sharp,
}

/// The notes that can be left out of a chord.
#[derive(Debug, Clone, Copy, PartialEq, Eq, Hash, Structural)]
pub enum OmittedNote {
    /// The third.
    No3,
    /// The fifth.
    No5,
}

impl ChordExtension {
    /// The intervals from the root that the extension brings into a chord.
    /// Leaving a note out brings none.
    pub open spec fn spec_intervals(&self) -> Seq<Interval> {
        match self {
            ChordExtension::Seventh(SeventhType::Dominant) => seq![Interval::minor_seventh()],
            ChordExtension::Seventh(SeventhType::Major) => seq![Interval::major_seventh()],
            ChordExtension::Seventh(SeventhType::Minor) => seq![Interval::minor_seventh()],
            ChordExtension::Seventh(SeventhType::HalfDiminished) => seq![
                Interval::minor_seventh(),
            ],
            ChordExtension::Seventh(SeventhType::Diminished) => seq![
                Interval::diminished_seventh(),
            ],
            ChordExtension::Ninth(NinthType::Natural) => seq![Interval::major_ninth()],
            ChordExtension::Ninth(NinthType::Flat) => seq![Interval::minor_ninth()],
            ChordExtension::Ninth(NinthType::Sharp) => seq![Interval::augmented_ninth()],
            ChordExtension::Eleventh(EleventhType::Natural) => seq![Interval::perfect_eleventh()],
            ChordExtension::Eleventh(EleventhType::Sharp) => seq![Interval::augmented_eleventh()],
            ChordExtension::Thirteenth(ThirteenthType::Natural) => seq![
                Interval::major_thirteenth(),
            ],
            ChordExtension::Thirteenth(ThirteenthType::Flat) => seq![
                Interval::minor_thirteenth(),
            ],
            ChordExtension::Add(AddedNote::Add2) => seq![Interval::major_second()],
            ChordExtension::Add(AddedNote::Add4) => seq![Interval::perfect_fourth()],
            ChordExtension::Add(AddedNote::Add6) => seq![Interval::major_sixth()],
            ChordExtension::Add(AddedNote::AddFlat6) => seq![Interval::minor_sixth()],
            ChordExtension::Sus(SuspendedType::Sus2) => seq![Interval::major_second()],
            ChordExtension::Sus(SuspendedType::Sus4) => seq![Interval::perfect_fourth()],
            ChordExtension::AlteredFifth(AlteredFifthType::Flat) => seq![
                Interval::diminished_fifth(),
            ],
            ChordExtension::AlteredFifth(AlteredFifthType::Sharp) => seq![
                Interval::augmented_fifth(),
            ],
            ChordExtension::AlteredNinth(AlteredNinthType::Flat) => seq![Interval::minor_ninth()],
            ChordExtension::AlteredNinth(AlteredNinthType::Sharp) => seq![
                Interval::augmented_ninth(),
            ],
            ChordExtension::Omit(_) => Seq::empty(),
        }
    }

    /// The intervals from the root that the extension brings into a chord.
    pub fn get_intervals(&self) -> (r: Vec<Interval>)
        ensures
            r@ == self.spec_intervals(),
    {
        match self {
            ChordExtension::Seventh(seventh_type) => match seventh_type {
                SeventhType::Dominant => vec![Interval::minor_seventh()],
                SeventhType::Major => vec![Interval::major_seventh()],
                SeventhType::Minor => vec![Interval::minor_seventh()],
                SeventhType::HalfDiminished => vec![Interval::minor_seventh()],
                SeventhType::Diminished => vec![Interval::diminished_seventh()],
            },
            ChordExtension::Ninth(ninth_type) => match ninth_type {
                NinthType::Natural => vec![Interval::major_ninth()],
                NinthType::Flat => vec![Interval::minor_ninth()],
                NinthType::Sharp => vec![Interval::augmented_ninth()],
            },
            ChordExtension::Eleventh(eleventh_type) => match eleventh_type {
                EleventhType::Natural => vec![Interval::perfect_eleventh()],
                EleventhType::Sharp => vec![Interval::augmented_eleventh()],
            },
            ChordExtension::Thirteenth(thirteenth_type) => match thirteenth_type {
                ThirteenthType::Natural => vec![Interval::major_thirteenth()],
                ThirteenthType::Flat => vec![Interval::minor_thirteenth()],
            },
            ChordExtension::Add(added_note) => match added_note {
                AddedNote::Add2 => vec![Interval::major_second()],
                AddedNote::Add4 => vec![Interval::perfect_fourth()],
                AddedNote::Add6 => vec![Interval::major_sixth()],
                AddedNote::AddFlat6 => vec![Interval::minor_sixth()],
            },
            ChordExtension::Sus(sus_type) => match sus_type {
                SuspendedType::Sus2 => vec![Interval::major_second()],
                SuspendedType::Sus4 => vec![Interval::perfect_fourth()],
            },
            ChordExtension::AlteredFifth(altered) => match altered {
                AlteredFifthType::Flat => vec![Interval::diminished_fifth()],
                AlteredFifthType::Sharp => vec![Interval::augmented_fifth()],
            },
            ChordExtension::AlteredNinth(altered) => match altered {
                AlteredNinthType::Flat => vec![Interval::minor_ninth()],
                AlteredNinthType::Sharp => vec![Interval::augmented_ninth()],
            },
            ChordExtension::Omit(_) => Vec::new(),
        }
    }
}

} // verus!
