//! Chords: a root with intervals from it.
use vstd::prelude::*;

use super::{Accidental, Interval, Letter, NoteName};
use crate::traits::{HasIntervals, HasRoot, Invertible, Transposable};

pub mod function;
pub mod naming;
pub mod notation;
pub mod quality;

pub use function::HarmonicFunction;
pub use quality::ChordQuality;

verus! {

/// A chord: a root and the intervals of its notes from the root. The root
/// itself is among the notes where the unison is among the intervals.
#[derive(Debug, Clone, PartialEq, Eq)]
pub struct Chord {
    /// The root of the chord.
    pub root: NoteName,
    /// The intervals from the root to the notes, most often in rising order.
    pub intervals: Vec<Interval>,
}

/// The intervals that lead from a root to each of the given notes.
pub open spec fn intervals_from(root: NoteName, notes: Seq<NoteName>) -> Seq<Interval> {
    Seq::new(notes.len(), |i: int| root.interval_to(notes[i]))
}

/// The intervals of a major triad: the unison, the major third, the perfect
/// fifth.
pub open spec fn major_triad() -> Seq<Interval> {
    seq![Interval::perfect_unison(), Interval::major_third(), Interval::perfect_fifth()]
}

/// The intervals of a minor triad: the unison, the minor third, the perfect
/// fifth.
pub open spec fn minor_triad() -> Seq<Interval> {
    seq![Interval::perfect_unison(), Interval::minor_third(), Interval::perfect_fifth()]
}

/// What a note scores as a root for having another note above it: 5 for a
/// fifth, 3 for a third, whatever their quality, and nothing for any other
/// note or for the note itself.
pub open spec fn pair_score(note: NoteName, other: NoteName) -> int {
    if other == note {
        0
    } else if note.interval_to(other).is_fifth() {
        5
    } else if note.interval_to(other).is_third() {
        3
    } else {
        0
    }
}

/// What a note scores as a root against the first `k` of the notes.
pub open spec fn root_score(notes: Seq<NoteName>, note: NoteName, k: int) -> int
    decreases k,
{
    if k <= 0 {
        0
    } else {
        root_score(notes, note, k - 1) + pair_score(note, notes[k - 1])
    }
}

/// What a note scores as the root of the chord of the notes.
pub open spec fn score_of(notes: Seq<NoteName>, note: NoteName) -> int {
    root_score(notes, note, notes.len() as int)
}

/// Whether one note is a better root than another: it scores more, or it
/// scores as much and lies fewer semitones above C.
pub open spec fn is_better_root(notes: Seq<NoteName>, note: NoteName, than: NoteName) -> bool {
    score_of(notes, note) > score_of(notes, than) || (score_of(notes, note) == score_of(
        notes,
        than,
    ) && note.semitones_from_c() < than.semitones_from_c())
}

/// The place of the best root among the first `k` of the notes, for `k` of
/// at least 1: a note takes the place of the best before it where it is a
/// better root.
pub open spec fn root_place(notes: Seq<NoteName>, k: int) -> int
    decreases k,
{
    if k <= 1 {
        0
    } else {
        let before = root_place(notes, k - 1);
        if is_better_root(notes, notes[k - 1], notes[before]) {
            k - 1
        } else {
            before
        }
    }
}

/// The root of the chord that is made of the given notes: the note that
/// scores most as a root; among several that score most, the one that lies
/// fewest semitones above C; among several of those, the first. Without
/// notes it is C.
pub open spec fn root_of(notes: Seq<NoteName>) -> NoteName {
    if notes.len() > 0 {
        notes[root_place(notes, notes.len() as int)]
    } else {
        NoteName::spec_new(Letter::C, Accidental::Natural)
    }
}

/// Whether a chord is the chord of the given notes on a root: its intervals
/// lead from the root to each of the notes in turn.
pub open spec fn is_chord_on(notes: Seq<NoteName>, root: NoteName, chord: Chord) -> bool {
    chord.root == root && chord.intervals@ == intervals_from(root, notes)
}

/// Whether a chord is the chord of the given notes: its root is the best
/// root among them, or C where there are none, and its intervals lead from
/// the root to each of the notes in turn.
pub open spec fn is_chord_of(notes: Seq<NoteName>, chord: Chord) -> bool {
    is_chord_on(notes, root_of(notes), chord)
}

/// Whether each of the notes has a name: a letter with one of the five
/// accidentals.
pub open spec fn all_valid(notes: Seq<NoteName>) -> bool {
    forall|i: int| 0 <= i < notes.len() ==> (#[trigger] notes[i]).is_valid()
}

/// Whether the intervals from a root to each of the given notes can be
/// held.
pub open spec fn intervals_fit(root: NoteName, notes: Seq<NoteName>) -> bool {
    forall|i: int| 0 <= i < notes.len() ==> root.interval_to_fits(#[trigger] notes[i])
}

/// A note that is a better root than every other of the notes is the root
/// of their chord.
pub proof fn lemma_best_root(notes: Seq<NoteName>, place: int)
    requires
        0 <= place < notes.len(),
        forall|i: int|
            0 <= i < notes.len() && i != place ==> is_better_root(
                notes,
                notes[place],
                #[trigger] notes[i],
            ),
    ensures
        root_of(notes) == notes[place],
{
    lemma_root_place(notes, notes.len() as int);
    let found = root_place(notes, notes.len() as int);
    if found != place {
        assert(is_better_root(notes, notes[place], notes[found]));
        assert(!is_better_root(notes, notes[place], notes[found]));
    }
}

/// What a note scores as the root of a chord of three notes.
pub proof fn lemma_score_of_three(notes: Seq<NoteName>, note: NoteName)
    requires
        notes.len() == 3,
    ensures
        score_of(notes, note) == pair_score(note, notes[0]) + pair_score(note, notes[1])
            + pair_score(note, notes[2]),
{
    reveal_with_fuel(root_score, 4);
}

/// The best root among the first `k` of the notes is one of them, no later
/// note among them is a better root, and no earlier one is as good.
pub proof fn lemma_root_place(notes: Seq<NoteName>, k: int)
    requires
        1 <= k <= notes.len(),
    ensures
        0 <= root_place(notes, k) < k,
        forall|i: int|
            0 <= i < k ==> !is_better_root(notes, #[trigger] notes[i], notes[root_place(notes, k)]),
        forall|i: int|
            0 <= i < root_place(notes, k) ==> is_better_root(
                notes,
                notes[root_place(notes, k)],
                #[trigger] notes[i],
            ),
    decreases k,
{
    if k > 1 {
        lemma_root_place(notes, k - 1);
    }
}

impl Chord {
    /// The root and the intervals of the chord.
    pub open spec fn parts(&self) -> (NoteName, Seq<Interval>) {
        (self.root, self.intervals@)
    }

    /// The chord with a root and intervals from it.
    pub fn new(root: NoteName, intervals: Vec<Interval>) -> (r: Chord)
        ensures
            r.root == root,
            r.intervals == intervals,
    {
        Chord { root, intervals }
    }

    /// The chord of the given notes, in whatever order they come. The root
    /// is the note that has most of a triad above it: each note scores 5 for
    /// every other note a fifth above it and 3 for every other note a third
    /// above it, and the note that scores most is the root. Where several
    /// score most, the one that lies fewest semitones above C is taken, and
    /// the first of those. Without notes the chord is the bare root C.
    pub fn from_notes(notes: &[NoteName]) -> (r: Chord)
        requires
            all_valid(notes@),
        ensures
            is_chord_of(notes@, r),
    {
        if notes.len() == 0 {
            return Self::from_notes_and_root(notes, NoteName::new(Letter::C, Accidental::Natural));
        }
        let mut candidate = notes[0];
        let mut score: u128 = Self::score_as_root(notes, candidate);
        let ghost mut place: int = 0;
        let mut i: usize = 1;
        while i < notes.len()
            invariant
                1 <= i <= notes.len(),
                all_valid(notes@),
                place == root_place(notes@, i as int),
                0 <= place < i,
                candidate == notes@[place],
                score == score_of(notes@, candidate),
            decreases notes.len() - i,
        {
            let note = notes[i];
            let note_score = Self::score_as_root(notes, note);
            if note_score > score || (note_score == score && note.base_midi_number()
                < candidate.base_midi_number()) {
                candidate = note;
                score = note_score;
                proof {
                    place = i as int;
                }
            }
            i = i + 1;
        }
        Self::from_notes_and_root(notes, candidate)
    }

    /// What a note scores as the root of the chord of the notes.
    fn score_as_root(notes: &[NoteName], note: NoteName) -> (r: u128)
        requires
            all_valid(notes@),
            note.is_valid(),
        ensures
            r == score_of(notes@, note),
    {
        let mut total: u128 = 0;
        let mut j: usize = 0;
        while j < notes.len()
            invariant
                j <= notes.len(),
                all_valid(notes@),
                note.is_valid(),
                total == root_score(notes@, note, j as int),
                total <= 5 * j,
            decreases notes.len() - j,
        {
            let other = notes[j];
            if other != note {
                let interval = note.interval_to(other);
                if interval.is_fifth() {
                    total = total + 5;
                } else if interval.is_third() {
                    total = total + 3;
                }
            }
            j = j + 1;
        }
        total
    }

    /// The chord of the given notes on the given root.
    pub fn from_notes_and_root(notes: &[NoteName], root: NoteName) -> (r: Chord)
        requires
            intervals_fit(root, notes@),
        ensures
            r.root == root,
            r.intervals@ == intervals_from(root, notes@),
    {
        let mut intervals: Vec<Interval> = Vec::new();
        let mut i: usize = 0;
        while i < notes.len()
            invariant
                i <= notes.len(),
                intervals_fit(root, notes@),
                intervals@ == intervals_from(root, notes@.take(i as int)),
            decreases notes.len() - i,
        {
            intervals.push(root.interval_to(notes[i]));
            assert(intervals@ =~= intervals_from(root, notes@.take(i + 1)));
            i = i + 1;
        }
        assert(notes@.take(i as int) =~= notes@);
        Chord { root, intervals }
    }

    /// The major triad on a root.
    pub fn major(root: NoteName) -> (r: Chord)
        ensures
            r.parts() == (root, major_triad()),
    {
        Self::new(
            root,
            vec![Interval::perfect_unison(), Interval::major_third(), Interval::perfect_fifth()],
        )
    }

    /// The minor triad on a root.
    pub fn minor(root: NoteName) -> (r: Chord)
        ensures
            r.parts() == (root, minor_triad()),
    {
        Self::new(
            root,
            vec![Interval::perfect_unison(), Interval::minor_third(), Interval::perfect_fifth()],
        )
    }

    /// The diminished triad on a root.
    pub fn diminished(root: NoteName) -> (r: Chord)
        ensures
            r.parts() == (
                root,
                seq![
                    Interval::perfect_unison(),
                    Interval::minor_third(),
                    Interval::diminished_fifth(),
                ],
            ),
    {
        Self::new(
            root,
            vec![Interval::perfect_unison(), Interval::minor_third(), Interval::diminished_fifth()],
        )
    }

    /// The augmented triad on a root.
    pub fn augmented(root: NoteName) -> (r: Chord)
        ensures
            r.parts() == (
                root,
                seq![
                    Interval::perfect_unison(),
                    Interval::major_third(),
                    Interval::augmented_fifth(),
                ],
            ),
    {
        Self::new(
            root,
            vec![Interval::perfect_unison(), Interval::major_third(), Interval::augmented_fifth()],
        )
    }

    /// The dominant seventh chord on a root.
    pub fn dominant_7th(root: NoteName) -> (r: Chord)
        ensures
            r.parts() == (
                root,
                seq![
                    Interval::perfect_unison(),
                    Interval::major_third(),
                    Interval::perfect_fifth(),
                    Interval::minor_seventh(),
                ],
            ),
    {
        Self::new(
            root,
            vec![
                Interval::perfect_unison(),
                Interval::major_third(),
                Interval::perfect_fifth(),
                Interval::minor_seventh(),
            ],
        )
    }

    /// The major seventh chord on a root.
    pub fn major_7th(root: NoteName) -> (r: Chord)
        ensures
            r.parts() == (
                root,
                seq![
                    Interval::perfect_unison(),
                    Interval::major_third(),
                    Interval::perfect_fifth(),
                    Interval::major_seventh(),
                ],
            ),
    {
        Self::new(
            root,
            vec![
                Interval::perfect_unison(),
                Interval::major_third(),
                Interval::perfect_fifth(),
                Interval::major_seventh(),
            ],
        )
    }

    /// The minor seventh chord on a root.
    pub fn minor_7th(root: NoteName) -> (r: Chord)
        ensures
            r.parts() == (
                root,
                seq![
                    Interval::perfect_unison(),
                    Interval::minor_third(),
                    Interval::perfect_fifth(),
                    Interval::minor_seventh(),
                ],
            ),
    {
        Self::new(
            root,
            vec![
                Interval::perfect_unison(),
                Interval::minor_third(),
                Interval::perfect_fifth(),
                Interval::minor_seventh(),
            ],
        )
    }

    /// The minor triad with a major seventh on a root.
    pub fn minor_major_7th(root: NoteName) -> (r: Chord)
        ensures
            r.parts() == (
                root,
                seq![
                    Interval::perfect_unison(),
                    Interval::minor_third(),
                    Interval::perfect_fifth(),
                    Interval::major_seventh(),
                ],
            ),
    {
        Self::new(
            root,
            vec![
                Interval::perfect_unison(),
                Interval::minor_third(),
                Interval::perfect_fifth(),
                Interval::major_seventh(),
            ],
        )
    }

    /// The half-diminished seventh chord on a root: a minor seventh chord
    /// with a diminished fifth.
    pub fn minor_7th_flat_5(root: NoteName) -> (r: Chord)
        ensures
            r.parts() == (
                root,
                seq![
                    Interval::perfect_unison(),
                    Interval::minor_third(),
                    Interval::diminished_fifth(),
                    Interval::minor_seventh(),
                ],
            ),
    {
        Self::new(
            root,
            vec![
                Interval::perfect_unison(),
                Interval::minor_third(),
                Interval::diminished_fifth(),
                Interval::minor_seventh(),
            ],
        )
    }

    /// Whether the major third is among the intervals.
    pub open spec fn spec_is_major(&self) -> bool {
        self.intervals@.contains(Interval::major_third())
    }

    /// Whether the major third is among the intervals.
    #[verifier::when_used_as_spec(spec_is_major)]
    pub fn is_major(&self) -> (r: bool)
        ensures
            r == self.spec_is_major(),
    {
        self.contains_interval(Interval::major_third())
    }

    /// The quality of the chord, where its thirds and fifths decide one.
    pub fn quality(&self) -> (r: Option<ChordQuality>)
        ensures
            r == quality::spec_detect(self.intervals@),
    {
        ChordQuality::detect(self)
    }

    /// The root, to be changed in place.
    pub fn root_mut(&mut self) -> (r: &mut NoteName)
        ensures
            *r == old(self).root,
            final(self).root == *final(r),
            final(self).intervals == old(self).intervals,
    {
        &mut self.root
    }

    /// The intervals, to be changed in place.
    pub fn intervals_mut(&mut self) -> (r: &mut Vec<Interval>)
        ensures
            *r == old(self).intervals,
            final(self).intervals == *final(r),
            final(self).root == old(self).root,
    {
        &mut self.intervals
    }
}

impl HasRoot for Chord {
    open spec fn spec_root(&self) -> NoteName {
        self.root
    }

    fn root(&self) -> (r: NoteName) {
        self.root
    }
}

impl HasIntervals for Chord {
    open spec fn spec_intervals(&self) -> Seq<Interval> {
        self.intervals@
    }

    fn intervals(&self) -> (r: &[Interval]) {
        self.intervals.as_slice()
    }
}

/// A list turned so that it starts `by` places later, what came before
/// following at the end.
pub open spec fn rotated(intervals: Seq<Interval>, by: int) -> Seq<Interval> {
    Seq::new(intervals.len(), |i: int| intervals[(i + by) % (intervals.len() as int)])
}

/// The intervals of an inversion: the list is turned by the number of the
/// inversion, as often round as that takes; and for any inversion but the
/// one with number 0, what then stands last is lowered by an octave.
pub open spec fn inverted_intervals(intervals: Seq<Interval>, inversion: int) -> Seq<Interval> {
    let turned = rotated(intervals, inversion % (intervals.len() as int));
    if inversion > 0 {
        turned.update(turned.len() - 1, turned.last().difference(Interval::octave()))
    } else {
        turned
    }
}

impl Invertible for Chord {
    /// The chord must have an interval, and the one that comes to stand
    /// last must not be so low already that an octave less cannot be held.
    open spec fn inverted_req(&self, inversion: u8) -> bool {
        &&& self.intervals@.len() > 0
        &&& inversion > 0 ==> rotated(
            self.intervals@,
            (inversion as int) % (self.intervals@.len() as int),
        ).last().difference_fits(Interval::octave())
    }

    open spec fn is_inversion(&self, inversion: u8, result: &Chord) -> bool {
        result.root == self.root && result.intervals@ == inverted_intervals(
            self.intervals@,
            inversion as int,
        )
    }

    fn inverted(&self, inversion: u8) -> (r: Chord) {
        let length = self.intervals.len();
        let by: usize = inversion as usize % length;
        let mut intervals: Vec<Interval> = Vec::with_capacity(length);
        let mut i: usize = 0;
        while i < length
            invariant
                i <= length,
                length == self.intervals@.len(),
                by < length,
                intervals@.len() == i,
                forall|j: int|
                    0 <= j < i ==> intervals@[j] == self.intervals@[(j + by) % (length as int)],
            decreases length - i,
        {
            let from: usize = if i >= length - by {
                i - (length - by)
            } else {
                i + by
            };
            assert(from == (i + by) % (length as int)) by {
                if i >= length - by {
                    assert(i + by == length + from);
                    vstd::arithmetic::div_mod::lemma_mod_add_multiples_vanish(
                        from as int,
                        length as int,
                    );
                    vstd::arithmetic::div_mod::lemma_small_mod(from as nat, length as nat);
                } else {
                    vstd::arithmetic::div_mod::lemma_small_mod(from as nat, length as nat);
                }
            }
            intervals.push(self.intervals[from]);
            i = i + 1;
        }
        assert(intervals@ =~= rotated(self.intervals@, by as int));
        if inversion > 0 {
            let last = intervals[length - 1];
            intervals.set(length - 1, last - Interval::octave());
        }
        Chord::new(self.root, intervals)
    }

    fn invert(&mut self, inversion: u8) {
        *self = self.inverted(inversion);
    }
}

impl Transposable for Chord {
    open spec fn transposed_req(&self, interval: Interval) -> bool {
        self.root.transpose_fits(interval)
    }

    open spec fn is_transposition(&self, interval: Interval, result: &Chord) -> bool {
        result.root == self.root.transpose(interval) && result.intervals@ == self.intervals@
    }

    fn transposed(&self, interval: Interval) -> (r: Chord) {
        Chord { root: self.root + interval, intervals: self.intervals.clone() }
    }

    fn transpose(&mut self, interval: Interval) {
        self.root = self.root + interval;
    }
}

} // verus!
