//! Scales: a tonic with a kind of scale.
use vstd::prelude::*;

use super::chord::function::steps_of;
use super::{Chord, HarmonicFunction, Interval, NoteName};
use crate::traits::{notes_above, notes_fit, HasIntervals, HasRoot, Transposable};

pub mod bitmask;
pub mod definition;
pub mod degree;
pub mod scales;

pub use bitmask::ScaleBitmask;
pub use definition::ScaleDefinition;
pub use degree::ScaleDegree;

use degree::{find_in_tier, resolve, Tier};
use scales::{aeolian, aeolian_intervals, ionian, ionian_intervals, is_aeolian, is_ionian};

verus! {

/// A scale: a kind of scale set on a tonic. Its notes are not stored: they
/// are the tonic moved by each interval of the kind in turn.
#[derive(Debug, Clone, PartialEq, Eq)]
pub struct Scale {
    /// The note on which the scale starts.
    pub tonic: NoteName,
    /// The kind of scale.
    pub definition: ScaleDefinition,
}

/// The degrees of those of the given notes that have one in a scale, in the
/// order of the notes, among the first `k` of them.
pub open spec fn degrees_of(scale_notes: Seq<NoteName>, notes: Seq<NoteName>, k: int) -> Seq<
    ScaleDegree,
>
    decreases k,
{
    if k <= 0 {
        Seq::empty()
    } else {
        match resolve(scale_notes, notes[k - 1]) {
            Some(degree) => degrees_of(scale_notes, notes, k - 1).push(degree),
            None => degrees_of(scale_notes, notes, k - 1),
        }
    }
}

impl Scale {
    /// The notes of the scale, from the tonic up.
    pub open spec fn spec_notes(&self) -> Seq<NoteName> {
        notes_above(self.tonic, self.definition.intervals@)
    }

    /// Whether the scale can be asked for degrees: it has at most 255 notes,
    /// and all of them are valid names.
    pub open spec fn has_valid_notes(&self) -> bool {
        &&& self.definition.intervals@.len() <= u8::MAX
        &&& notes_fit(self.tonic, self.definition.intervals@)
        &&& forall|i: int|
            0 <= i < self.spec_notes().len() ==> (#[trigger] self.spec_notes()[i]).is_valid()
    }

    /// The scale of a kind on a tonic.
    pub fn new(tonic: NoteName, definition: ScaleDefinition) -> (r: Scale)
        ensures
            r.tonic == tonic,
            r.definition == definition,
    {
        Scale { tonic, definition }
    }

    /// The notes of the scale, from the tonic up.
    pub fn notes(&self) -> (r: Vec<NoteName>)
        requires
            notes_fit(self.tonic, self.definition.intervals@),
        ensures
            r@ == self.spec_notes(),
    {
        let intervals = self.definition.intervals;
        let mut result: Vec<NoteName> = Vec::with_capacity(intervals.len());
        let mut i: usize = 0;
        while i < intervals.len()
            invariant
                i <= intervals.len(),
                intervals@ == self.definition.intervals@,
                notes_fit(self.tonic, intervals@),
                result@ == notes_above(self.tonic, intervals@.take(i as int)),
            decreases intervals.len() - i,
        {
            let note = self.tonic + intervals[i];
            result.push(note);
            assert(result@ =~= notes_above(self.tonic, intervals@.take(i + 1)));
            i = i + 1;
        }
        assert(intervals@.take(i as int) =~= intervals@);
        result
    }

    /// The degree of the scale that a note stands for. The note is matched
    /// to the notes of the scale in six ways, each tried on every note of
    /// the scale before the next is tried:
    ///
    /// 1. it is a note of the scale;
    /// 2. it sounds like a note of the scale;
    /// 3. it has a flat and lies a semitone below a note of the scale, or a
    ///    sharp and lies a semitone above one;
    /// 4. it has the letter of a note of the scale and lies a semitone from
    ///    it;
    /// 5. it lies a semitone from a note of the scale;
    /// 6. it lies two semitones from a note of the scale.
    ///
    /// The first two give the step of that note unaltered, the next three
    /// with a flat or a sharp, the last with a double flat or a double
    /// sharp. Where several notes of the scale match in one way, the first
    /// of them gives the step.
    pub fn degree_of(&self, note: &NoteName) -> (r: Option<ScaleDegree>)
        requires
            self.has_valid_notes(),
            note.is_valid(),
        ensures
            r == resolve(self.spec_notes(), *note),
    {
        let notes = self.notes();
        let found = find_in_tier(Tier::Exact, notes.as_slice(), *note);
        if found.is_some() {
            return found;
        }
        let found = find_in_tier(Tier::Enharmonic, notes.as_slice(), *note);
        if found.is_some() {
            return found;
        }
        let found = find_in_tier(Tier::OwnAccidental, notes.as_slice(), *note);
        if found.is_some() {
            return found;
        }
        let found = find_in_tier(Tier::SameLetter, notes.as_slice(), *note);
        if found.is_some() {
            return found;
        }
        let found = find_in_tier(Tier::Semitone, notes.as_slice(), *note);
        if found.is_some() {
            return found;
        }
        find_in_tier(Tier::WholeTone, notes.as_slice(), *note)
    }

    /// The harmonic function of a chord in the scale, read from the degrees
    /// of those of its notes that have one.
    pub fn harmonic_function(&self, chord: &Chord) -> (r: Option<HarmonicFunction>)
        requires
            self.has_valid_notes(),
            notes_fit(chord.root, chord.intervals@),
            forall|i: int|
                0 <= i < chord.intervals@.len() ==> (#[trigger] notes_above(
                    chord.root,
                    chord.intervals@,
                )[i]).is_valid(),
        ensures
            r == HarmonicFunction::spec_detect(
                steps_of(
                    degrees_of(
                        self.spec_notes(),
                        notes_above(chord.root, chord.intervals@),
                        chord.intervals@.len() as int,
                    ),
                ),
            ),
    {
        let notes = chord_notes(chord);
        let mut degrees: Vec<ScaleDegree> = Vec::new();
        let mut i: usize = 0;
        while i < notes.len()
            invariant
                i <= notes.len(),
                self.has_valid_notes(),
                notes@ == notes_above(chord.root, chord.intervals@),
                forall|i: int| 0 <= i < notes@.len() ==> (#[trigger] notes@[i]).is_valid(),
                degrees@ == degrees_of(self.spec_notes(), notes@, i as int),
            decreases notes.len() - i,
        {
            match self.degree_of(&notes[i]) {
                Some(degree) => {
                    degrees.push(degree);
                },
                None => {},
            }
            i = i + 1;
        }
        HarmonicFunction::detect_by_scale_degrees(degrees.as_slice())
    }

    /// The relative of a major or a minor scale: the Ionian scale gives the
    /// Aeolian scale on its sixth note, the Aeolian scale gives the Ionian
    /// scale on its sixth note; any other scale gives nothing. A scale is
    /// Ionian or Aeolian by its intervals.
    pub fn relative(&self) -> (r: Option<Scale>)
        requires
            self.definition.intervals@ == ionian_intervals() || self.definition.intervals@
                == aeolian_intervals() ==> self.tonic.transpose_fits(
                self.definition.intervals@[5],
            ),
        ensures
            self.definition.intervals@ == ionian_intervals() ==> (r matches Some(scale)
                && scale.tonic == self.tonic.transpose(Interval::major_sixth()) && is_aeolian(
                scale.definition,
            )),
            self.definition.intervals@ == aeolian_intervals() ==> (r matches Some(scale)
                && scale.tonic == self.tonic.transpose(Interval::minor_sixth()) && is_ionian(
                scale.definition,
            )),
            self.definition.intervals@ != ionian_intervals() && self.definition.intervals@
                != aeolian_intervals() ==> r is None,
    {
        if self.definition.same_intervals(&ionian()) {
            let new_tonic = self.tonic + self.definition.intervals[5];
            Some(Scale::new(new_tonic, aeolian()))
        } else if self.definition.same_intervals(&aeolian()) {
            let new_tonic = self.tonic + self.definition.intervals[5];
            Some(Scale::new(new_tonic, ionian()))
        } else {
            None
        }
    }

    /// The parallel of a major or a minor scale: the Ionian scale gives the
    /// Aeolian scale on the same tonic, and the Aeolian the Ionian; any other
    /// scale gives nothing.
    pub fn parallel(&self) -> (r: Option<Scale>)
        ensures
            self.definition.intervals@ == ionian_intervals() ==> (r matches Some(scale)
                && scale.tonic == self.tonic && is_aeolian(scale.definition)),
            self.definition.intervals@ == aeolian_intervals() ==> (r matches Some(scale)
                && scale.tonic == self.tonic && is_ionian(scale.definition)),
            self.definition.intervals@ != ionian_intervals() && self.definition.intervals@
                != aeolian_intervals() ==> r is None,
    {
        if self.definition.same_intervals(&ionian()) {
            Some(Scale::new(self.tonic, aeolian()))
        } else if self.definition.same_intervals(&aeolian()) {
            Some(Scale::new(self.tonic, ionian()))
        } else {
            None
        }
    }
}

/// The notes of a chord: its root moved by each of its intervals in turn.
fn chord_notes(chord: &Chord) -> (r: Vec<NoteName>)
    requires
        notes_fit(chord.root, chord.intervals@),
    ensures
        r@ == notes_above(chord.root, chord.intervals@),
{
    let mut notes: Vec<NoteName> = Vec::new();
    let mut i: usize = 0;
    while i < chord.intervals.len()
        invariant
            i <= chord.intervals.len(),
            notes_fit(chord.root, chord.intervals@),
            notes@ == notes_above(chord.root, chord.intervals@.take(i as int)),
        decreases chord.intervals.len() - i,
    {
        let note = chord.root + chord.intervals[i];
        notes.push(note);
        assert(notes@ =~= notes_above(chord.root, chord.intervals@.take(i + 1)));
        i = i + 1;
    }
    assert(chord.intervals@.take(i as int) =~= chord.intervals@);
    notes
}

impl HasRoot for Scale {
    open spec fn spec_root(&self) -> NoteName {
        self.tonic
    }

    fn root(&self) -> (r: NoteName) {
        self.tonic
    }
}

impl HasIntervals for Scale {
    open spec fn spec_intervals(&self) -> Seq<Interval> {
        self.definition.intervals@
    }

    fn intervals(&self) -> (r: &[Interval]) {
        self.definition.intervals
    }
}

impl Transposable for Scale {
    open spec fn transposed_req(&self, interval: Interval) -> bool {
        self.tonic.transpose_fits(interval)
    }

    open spec fn is_transposition(&self, interval: Interval, result: &Scale) -> bool {
        result.tonic == self.tonic.transpose(interval) && result.definition == self.definition
    }

    fn transposed(&self, interval: Interval) -> (r: Scale) {
        Scale { tonic: self.tonic + interval, definition: self.definition }
    }

    fn transpose(&mut self, interval: Interval) {
        self.tonic = self.tonic + interval;
    }
}

} // verus!
