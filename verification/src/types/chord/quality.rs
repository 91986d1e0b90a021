//! The quality of a chord, read from its thirds and fifths.
use vstd::prelude::*;

use crate::traits::HasIntervals;
use crate::types::Interval;

verus! {

/// What kind of triad a chord is built on.
#[derive(Debug, Clone, Copy, PartialEq, Eq, Structural)]
pub enum ChordQuality {
    /// A major third with a perfect fifth.
    Major,
    /// A minor third with a perfect fifth.
    Minor,
    /// A minor third with a diminished fifth.
    Diminished,
    /// A major third with an augmented fifth.
    Augmented,
}

/// The kind of third that a chord has.
#[derive(Debug, Clone, Copy, PartialEq, Eq, Structural)]
pub enum ThirdKind {
    /// More major thirds than minor ones.
    Major,
    /// More minor thirds than major ones.
    Minor,
}

/// The kind of fifth that a chord has.
#[derive(Debug, Clone, Copy, PartialEq, Eq, Structural)]
pub enum FifthKind {
    /// No perfect, diminished or augmented fifth at all.
    Absent,
    /// More perfect fifths than of either other kind.
    Perfect,
    /// More diminished fifths than of either other kind.
    Diminished,
    /// More augmented fifths than of either other kind.
    Augmented,
    /// Fifths, but no kind with more than both others.
    Tied,
}

/// How often an interval occurs in a list.
pub open spec fn occurrences(intervals: Seq<Interval>, interval: Interval) -> nat
    decreases intervals.len(),
{
    if intervals.len() == 0 {
        0
    } else {
        occurrences(intervals.drop_last(), interval) + (if intervals.last() == interval {
            1nat
        } else {
            0nat
        })
    }
}

/// The kind of third among the intervals: the one of major and minor that
/// occurs more often, or none where they occur equally often.
pub open spec fn third_kind(intervals: Seq<Interval>) -> Option<ThirdKind> {
    let major = occurrences(intervals, Interval::major_third());
    let minor = occurrences(intervals, Interval::minor_third());
    if major > minor {
        Some(ThirdKind::Major)
    } else if minor > major {
        Some(ThirdKind::Minor)
    } else {
        None
    }
}

/// The kind of fifth among the intervals: the one of perfect, diminished and
/// augmented that occurs more often than both others.
pub open spec fn fifth_kind(intervals: Seq<Interval>) -> FifthKind {
    let perfect = occurrences(intervals, Interval::perfect_fifth());
    let diminished = occurrences(intervals, Interval::diminished_fifth());
    let augmented = occurrences(intervals, Interval::augmented_fifth());
    if perfect > diminished && perfect > augmented {
        FifthKind::Perfect
    } else if diminished > perfect && diminished > augmented {
        FifthKind::Diminished
    } else if augmented > perfect && augmented > diminished {
        FifthKind::Augmented
    } else if perfect == 0 && diminished == 0 && augmented == 0 {
        FifthKind::Absent
    } else {
        FifthKind::Tied
    }
}

/// The quality that a third and a fifth make together. A third alone decides
/// where there is no fifth. Nothing is decided without a third, by tied
/// fifths, or by a third with a fifth that does not go with it.
pub open spec fn quality_of(third: Option<ThirdKind>, fifth: FifthKind) -> Option<ChordQuality> {
    match (third, fifth) {
        (Some(ThirdKind::Major), FifthKind::Perfect) => Some(ChordQuality::Major),
        (Some(ThirdKind::Minor), FifthKind::Perfect) => Some(ChordQuality::Minor),
        (Some(ThirdKind::Minor), FifthKind::Diminished) => Some(ChordQuality::Diminished),
        (Some(ThirdKind::Major), FifthKind::Augmented) => Some(ChordQuality::Augmented),
        (Some(ThirdKind::Minor), FifthKind::Absent) => Some(ChordQuality::Minor),
        (Some(ThirdKind::Major), FifthKind::Absent) => Some(ChordQuality::Major),
        _ => None,
    }
}

/// The quality of a list of intervals from a root.
pub open spec fn spec_detect(intervals: Seq<Interval>) -> Option<ChordQuality> {
    quality_of(third_kind(intervals), fifth_kind(intervals))
}

/// Counts how often an interval occurs in a list.
pub fn count(intervals: &[Interval], interval: Interval) -> (r: usize)
    ensures
        r == occurrences(intervals@, interval),
{
    let mut found: usize = 0;
    let mut i: usize = 0;
    while i < intervals.len()
        invariant
            i <= intervals.len(),
            found <= i,
            found == occurrences(intervals@.take(i as int), interval),
        decreases intervals.len() - i,
    {
        assert(intervals@.take(i + 1).drop_last() =~= intervals@.take(i as int));
        if intervals[i] == interval {
            found = found + 1;
        }
        i = i + 1;
    }
    assert(intervals@.take(i as int) =~= intervals@);
    found
}

impl ChordQuality {
    /// Reads the quality of a structure off its intervals, by the kinds of
    /// third and of fifth that occur most among them.
    pub fn detect<T: HasIntervals>(c: &T) -> (r: Option<ChordQuality>)
        ensures
            r == spec_detect(c.spec_intervals()),
    {
        let intervals = c.intervals();
        let major_thirds = count(intervals, Interval::major_third());
        let minor_thirds = count(intervals, Interval::minor_third());
        let perfect_fifths = count(intervals, Interval::perfect_fifth());
        let diminished_fifths = count(intervals, Interval::diminished_fifth());
        let augmented_fifths = count(intervals, Interval::augmented_fifth());

        let third: Option<ThirdKind> = if major_thirds > minor_thirds {
            Some(ThirdKind::Major)
        } else if minor_thirds > major_thirds {
            Some(ThirdKind::Minor)
        } else {
            None
        };
        let fifth: FifthKind = if perfect_fifths > diminished_fifths && perfect_fifths
            > augmented_fifths {
            FifthKind::Perfect
        } else if diminished_fifths > perfect_fifths && diminished_fifths > augmented_fifths {
            FifthKind::Diminished
        } else if augmented_fifths > perfect_fifths && augmented_fifths > diminished_fifths {
            FifthKind::Augmented
        } else if perfect_fifths == 0 && diminished_fifths == 0 && augmented_fifths == 0 {
            FifthKind::Absent
        } else {
            FifthKind::Tied
        };
        match (third, fifth) {
            (Some(ThirdKind::Major), FifthKind::Perfect) => Some(ChordQuality::Major),
            (Some(ThirdKind::Minor), FifthKind::Perfect) => Some(ChordQuality::Minor),
            (Some(ThirdKind::Minor), FifthKind::Diminished) => Some(ChordQuality::Diminished),
            (Some(ThirdKind::Major), FifthKind::Augmented) => Some(ChordQuality::Augmented),
            (Some(ThirdKind::Minor), FifthKind::Absent) => Some(ChordQuality::Minor),
            (Some(ThirdKind::Major), FifthKind::Absent) => Some(ChordQuality::Major),
            _ => None,
        }
    }
}

} // verus!
