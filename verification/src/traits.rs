//! What musical structures have in common.
use vstd::prelude::*;

use crate::types::{Chord, Interval, NoteName};

verus! {

/// A structure that is built on a root note.
pub trait HasRoot {
    /// The root note.
    spec fn spec_root(&self) -> NoteName;

    /// The root note.
    fn root(&self) -> (r: NoteName)
        ensures
            r == self.spec_root(),
    ;
}

/// A structure that is made of intervals.
pub trait HasIntervals {
    /// The intervals, in their order.
    spec fn spec_intervals(&self) -> Seq<Interval>;

    /// The intervals, in their order.
    fn intervals(&self) -> (r: &[Interval])
        ensures
            r@ == self.spec_intervals(),
    ;

    /// Whether an interval is among those of the structure.
    fn contains_interval(&self, interval: Interval) -> (r: bool)
        ensures
            r == self.spec_intervals().contains(interval),
    {
        slice_contains(self.intervals(), interval)
    }
}

/// Whether an interval occurs in a list.
pub fn slice_contains(intervals: &[Interval], interval: Interval) -> (r: bool)
    ensures
        r == intervals@.contains(interval),
{
    let mut i: usize = 0;
    while i < intervals.len()
        invariant
            i <= intervals.len(),
            forall|j: int| 0 <= j < i ==> intervals@[j] != interval,
        decreases intervals.len() - i,
    {
        if intervals[i] == interval {
            return true;
        }
        i = i + 1;
    }
    false
}

/// A structure that can be inverted: its lowest notes are moved to the top.
pub trait Invertible: Sized {
    /// The inversions that can be made of the structure.
    spec fn inverted_req(&self, inversion: u8) -> bool;

    /// Whether `result` is the given inversion of the structure.
    spec fn is_inversion(&self, inversion: u8, result: &Self) -> bool;

    /// The inversion of the structure with the given number.
    fn inverted(&self, inversion: u8) -> (r: Self)
        requires
            self.inverted_req(inversion),
        ensures
            self.is_inversion(inversion, &r),
    ;

    /// Puts the inversion in the place of the structure.
    fn invert(&mut self, inversion: u8)
        requires
            old(self).inverted_req(inversion),
        ensures
            old(self).is_inversion(inversion, final(self)),
    ;
}

/// A structure that can be moved by an interval.
pub trait Transposable: Sized {
    /// The intervals by which the structure can be moved.
    spec fn transposed_req(&self, interval: Interval) -> bool;

    /// Whether `result` is the structure moved by the given interval.
    spec fn is_transposition(&self, interval: Interval, result: &Self) -> bool;

    /// The structure moved by an interval.
    fn transposed(&self, interval: Interval) -> (r: Self)
        requires
            self.transposed_req(interval),
        ensures
            self.is_transposition(interval, &r),
    ;

    /// Moves the structure by an interval.
    fn transpose(&mut self, interval: Interval)
        requires
            old(self).transposed_req(interval),
        ensures
            old(self).is_transposition(interval, final(self)),
    ;
}

/// The notes that lie at the given intervals from a root.
pub open spec fn notes_above(root: NoteName, intervals: Seq<Interval>) -> Seq<NoteName> {
    Seq::new(intervals.len(), |i: int| root.transpose(intervals[i]))
}

/// Whether every note at the given intervals from a root can be computed.
pub open spec fn notes_fit(root: NoteName, intervals: Seq<Interval>) -> bool {
    forall|i: int| 0 <= i < intervals.len() ==> root.transpose_fits(#[trigger] intervals[i])
}

/// Whether the difference of any two of the intervals can be held.
pub open spec fn differences_fit(intervals: Seq<Interval>) -> bool {
    forall|i: int, j: int|
        0 <= i < intervals.len() && 0 <= j < intervals.len() ==> (#[trigger] intervals[j])
            .difference_fits(#[trigger] intervals[i])
}

/// The one item of an option as a list, or the empty list.
pub open spec fn listed<T>(item: Option<T>) -> Seq<T> {
    match item {
        Some(value) => seq![value],
        None => Seq::empty(),
    }
}

/// The root and the intervals of each chord of a list.
pub open spec fn parts_of(chords: Seq<Chord>) -> Seq<(NoteName, Seq<Interval>)> {
    Seq::new(chords.len(), |i: int| chords[i].parts())
}

/// The triad whose root, third and fifth are the notes at the places `i`,
/// `j` and `k` of a structure, if these are three places and the notes do
/// lie a third and a fifth above the root. It is given as its root and its
/// intervals: the unison, the third, the fifth.
pub open spec fn triad_at(root: NoteName, intervals: Seq<Interval>, i: int, j: int, k: int)
    -> Option<(NoteName, Seq<Interval>)> {
    let third = intervals[j].difference(intervals[i]);
    let fifth = intervals[k].difference(intervals[i]);
    if i != j && i != k && j != k && third.is_third() && fifth.is_fifth() {
        Some((root.transpose(intervals[i]), seq![Interval::perfect_unison(), third, fifth]))
    } else {
        None
    }
}

/// The triads on the root at place `i` with the third at place `j` and the
/// fifth at one of the first `k` places, in the order of the fifth.
pub open spec fn triads_with_third(
    root: NoteName,
    intervals: Seq<Interval>,
    i: int,
    j: int,
    k: int,
) -> Seq<(NoteName, Seq<Interval>)>
    decreases k,
{
    if k <= 0 {
        Seq::empty()
    } else {
        triads_with_third(root, intervals, i, j, k - 1) + listed(
            triad_at(root, intervals, i, j, k - 1),
        )
    }
}

/// The triads on the root at place `i` with the third at one of the first
/// `j` places, in the order of the third, then of the fifth.
pub open spec fn triads_on_root(root: NoteName, intervals: Seq<Interval>, i: int, j: int) -> Seq<
    (NoteName, Seq<Interval>),
>
    decreases j,
{
    if j <= 0 {
        Seq::empty()
    } else {
        triads_on_root(root, intervals, i, j - 1) + triads_with_third(
            root,
            intervals,
            i,
            j - 1,
            intervals.len() as int,
        )
    }
}

/// The triads on a root at one of the first `i` places, in the order of the
/// root, then of the third, then of the fifth.
pub open spec fn triads_upto(root: NoteName, intervals: Seq<Interval>, i: int) -> Seq<
    (NoteName, Seq<Interval>),
>
    decreases i,
{
    if i <= 0 {
        Seq::empty()
    } else {
        triads_upto(root, intervals, i - 1) + triads_on_root(
            root,
            intervals,
            i - 1,
            intervals.len() as int,
        )
    }
}

/// The seventh chord whose root, third, fifth and seventh are the notes at
/// the places `i`, `j`, `k` and `l` of a structure, if these are four places
/// and the notes do lie a third, a fifth and a seventh above the root.
pub open spec fn seventh_at(
    root: NoteName,
    intervals: Seq<Interval>,
    i: int,
    j: int,
    k: int,
    l: int,
) -> Option<(NoteName, Seq<Interval>)> {
    let third = intervals[j].difference(intervals[i]);
    let fifth = intervals[k].difference(intervals[i]);
    let seventh = intervals[l].difference(intervals[i]);
    if i != j && i != k && i != l && j != k && j != l && k != l && third.is_third()
        && fifth.is_fifth() && seventh.is_seventh() {
        Some(
            (
                root.transpose(intervals[i]),
                seq![Interval::perfect_unison(), third, fifth, seventh],
            ),
        )
    } else {
        None
    }
}

/// The seventh chords on the root at place `i` with the third at place `j`,
/// the fifth at place `k` and the seventh at one of the first `l` places.
pub open spec fn sevenths_with_fifth(
    root: NoteName,
    intervals: Seq<Interval>,
    i: int,
    j: int,
    k: int,
    l: int,
) -> Seq<(NoteName, Seq<Interval>)>
    decreases l,
{
    if l <= 0 {
        Seq::empty()
    } else {
        sevenths_with_fifth(root, intervals, i, j, k, l - 1) + listed(
            seventh_at(root, intervals, i, j, k, l - 1),
        )
    }
}

/// The seventh chords on the root at place `i` with the third at place `j`
/// and the fifth at one of the first `k` places.
pub open spec fn sevenths_with_third(
    root: NoteName,
    intervals: Seq<Interval>,
    i: int,
    j: int,
    k: int,
) -> Seq<(NoteName, Seq<Interval>)>
    decreases k,
{
    if k <= 0 {
        Seq::empty()
    } else {
        sevenths_with_third(root, intervals, i, j, k - 1) + sevenths_with_fifth(
            root,
            intervals,
            i,
            j,
            k - 1,
            intervals.len() as int,
        )
    }
}

/// The seventh chords on the root at place `i` with the third at one of the
/// first `j` places.
pub open spec fn sevenths_on_root(root: NoteName, intervals: Seq<Interval>, i: int, j: int)
    -> Seq<(NoteName, Seq<Interval>)>
    decreases j,
{
    if j <= 0 {
        Seq::empty()
    } else {
        sevenths_on_root(root, intervals, i, j - 1) + sevenths_with_third(
            root,
            intervals,
            i,
            j - 1,
            intervals.len() as int,
        )
    }
}

/// The seventh chords on a root at one of the first `i` places, in the
/// order of the root, then of the third, the fifth and the seventh.
pub open spec fn sevenths_upto(root: NoteName, intervals: Seq<Interval>, i: int) -> Seq<
    (NoteName, Seq<Interval>),
>
    decreases i,
{
    if i <= 0 {
        Seq::empty()
    } else {
        sevenths_upto(root, intervals, i - 1) + sevenths_on_root(
            root,
            intervals,
            i - 1,
            intervals.len() as int,
        )
    }
}

/// A structure with a root and intervals from it, such as a chord or a
/// scale. Every type that has both is one.
pub trait ChordLike: HasRoot + HasIntervals {
    /// The notes of the structure: the root moved by each interval in turn.
    fn notes(&self) -> (r: Vec<NoteName>)
        requires
            notes_fit(self.spec_root(), self.spec_intervals()),
        ensures
            r@ == notes_above(self.spec_root(), self.spec_intervals()),
    ;

    /// Every triad that can be made of three notes of the structure: one
    /// note as the root, another a third above it, another a fifth above it.
    /// The triads come in the order of the places of the root, the third and
    /// the fifth among the notes.
    fn triads(&self) -> (r: Vec<Chord>)
        requires
            notes_fit(self.spec_root(), self.spec_intervals()),
            differences_fit(self.spec_intervals()),
        ensures
            parts_of(r@) == triads_upto(
                self.spec_root(),
                self.spec_intervals(),
                self.spec_intervals().len() as int,
            ),
    ;

    /// Every seventh chord that can be made of four notes of the structure:
    /// a root with a third, a fifth and a seventh above it. The chords come
    /// in the order of the places of the root, the third, the fifth and the
    /// seventh among the notes.
    fn sevenths(&self) -> (r: Vec<Chord>)
        requires
            notes_fit(self.spec_root(), self.spec_intervals()),
            differences_fit(self.spec_intervals()),
        ensures
            parts_of(r@) == sevenths_upto(
                self.spec_root(),
                self.spec_intervals(),
                self.spec_intervals().len() as int,
            ),
    ;
}

impl<T: HasRoot + HasIntervals> ChordLike for T {
    fn notes(&self) -> (r: Vec<NoteName>) {
        let root = self.root();
        let intervals = self.intervals();
        let mut notes: Vec<NoteName> = Vec::new();
        let mut i: usize = 0;
        while i < intervals.len()
            invariant
                i <= intervals.len(),
                root == self.spec_root(),
                intervals@ == self.spec_intervals(),
                notes_fit(root, intervals@),
                notes@ == notes_above(root, intervals@.take(i as int)),
            decreases intervals.len() - i,
        {
            let note = root + intervals[i];
            notes.push(note);
            assert(notes@ =~= notes_above(root, intervals@.take(i + 1)));
            i = i + 1;
        }
        assert(intervals@.take(i as int) =~= intervals@);
        notes
    }

    fn triads(&self) -> (r: Vec<Chord>) {
        let intervals = self.intervals();
        let tonic = self.root();
        let length = intervals.len();
        let mut found: Vec<Chord> = Vec::new();
        let mut i: usize = 0;
        while i < length
            invariant
                i <= length,
                length == intervals@.len(),
                notes_fit(tonic, intervals@),
                differences_fit(intervals@),
                parts_of(found@) == triads_upto(tonic, intervals@, i as int),
            decreases length - i,
        {
            let ghost done = triads_upto(tonic, intervals@, i as int);
            let mut j: usize = 0;
            while j < length
                invariant
                    j <= length,
                    i < length,
                    length == intervals@.len(),
                    notes_fit(tonic, intervals@),
                    differences_fit(intervals@),
                    done == triads_upto(tonic, intervals@, i as int),
                    parts_of(found@) == done + triads_on_root(
                        tonic,
                        intervals@,
                        i as int,
                        j as int,
                    ),
                decreases length - j,
            {
                let ghost on_root = triads_on_root(tonic, intervals@, i as int, j as int);
                let mut k: usize = 0;
                while k < length
                    invariant
                        k <= length,
                        j < length,
                        i < length,
                        length == intervals@.len(),
                        notes_fit(tonic, intervals@),
                        differences_fit(intervals@),
                        parts_of(found@) == done + on_root + triads_with_third(
                            tonic,
                            intervals@,
                            i as int,
                            j as int,
                            k as int,
                        ),
                    decreases length - k,
                {
                    let ghost before = triads_with_third(
                        tonic,
                        intervals@,
                        i as int,
                        j as int,
                        k as int,
                    );
                    let ghost old_found = found@;
                    if i != j && i != k && j != k {
                        let root_interval = intervals[i];
                        let third = intervals[j] - root_interval;
                        let fifth = intervals[k] - root_interval;
                        if third.is_third() && fifth.is_fifth() {
                            let root = tonic + root_interval;
                            found.push(
                                Chord::new(root, vec![Interval::perfect_unison(), third, fifth]),
                            );
                            assert(parts_of(found@) =~= parts_of(old_found).push(
                                triad_at(tonic, intervals@, i as int, j as int, k as int)->0,
                            ));
                        }
                    }
                    assert(parts_of(found@) =~= done + on_root + (before + listed(
                        triad_at(tonic, intervals@, i as int, j as int, k as int),
                    )));
                    k = k + 1;
                }
                assert(parts_of(found@) =~= done + (on_root + triads_with_third(
                    tonic,
                    intervals@,
                    i as int,
                    j as int,
                    length as int,
                )));
                j = j + 1;
            }
            i = i + 1;
        }
        found
    }

    fn sevenths(&self) -> (r: Vec<Chord>) {
        let intervals = self.intervals();
        let tonic = self.root();
        let length = intervals.len();
        let mut found: Vec<Chord> = Vec::new();
        let mut i: usize = 0;
        while i < length
            invariant
                i <= length,
                length == intervals@.len(),
                notes_fit(tonic, intervals@),
                differences_fit(intervals@),
                parts_of(found@) == sevenths_upto(tonic, intervals@, i as int),
            decreases length - i,
        {
            let ghost done = sevenths_upto(tonic, intervals@, i as int);
            let mut j: usize = 0;
            while j < length
                invariant
                    j <= length,
                    i < length,
                    length == intervals@.len(),
                    notes_fit(tonic, intervals@),
                    differences_fit(intervals@),
                    done == sevenths_upto(tonic, intervals@, i as int),
                    parts_of(found@) == done + sevenths_on_root(
                        tonic,
                        intervals@,
                        i as int,
                        j as int,
                    ),
                decreases length - j,
            {
                let ghost on_root = sevenths_on_root(tonic, intervals@, i as int, j as int);
                let mut k: usize = 0;
                while k < length
                    invariant
                        k <= length,
                        j < length,
                        i < length,
                        length == intervals@.len(),
                        notes_fit(tonic, intervals@),
                        differences_fit(intervals@),
                        parts_of(found@) == done + on_root + sevenths_with_third(
                            tonic,
                            intervals@,
                            i as int,
                            j as int,
                            k as int,
                        ),
                    decreases length - k,
                {
                    let ghost with_third = sevenths_with_third(
                        tonic,
                        intervals@,
                        i as int,
                        j as int,
                        k as int,
                    );
                    let mut l: usize = 0;
                    while l < length
                        invariant
                            l <= length,
                            k < length,
                            j < length,
                            i < length,
                            length == intervals@.len(),
                            notes_fit(tonic, intervals@),
                            differences_fit(intervals@),
                            parts_of(found@) == done + on_root + with_third + sevenths_with_fifth(
                                tonic,
                                intervals@,
                                i as int,
                                j as int,
                                k as int,
                                l as int,
                            ),
                        decreases length - l,
                    {
                        let ghost before = sevenths_with_fifth(
                            tonic,
                            intervals@,
                            i as int,
                            j as int,
                            k as int,
                            l as int,
                        );
                        let ghost old_found = found@;
                        if i != j && i != k && i != l && j != k && j != l && k != l {
                            let root_interval = intervals[i];
                            let third = intervals[j] - root_interval;
                            let fifth = intervals[k] - root_interval;
                            let seventh = intervals[l] - root_interval;
                            if third.is_third() && fifth.is_fifth() && seventh.is_seventh() {
                                let root = tonic + root_interval;
                                found.push(
                                    Chord::new(
                                        root,
                                        vec![Interval::perfect_unison(), third, fifth, seventh],
                                    ),
                                );
                                assert(parts_of(found@) =~= parts_of(old_found).push(
                                    seventh_at(
                                        tonic,
                                        intervals@,
                                        i as int,
                                        j as int,
                                        k as int,
                                        l as int,
                                    )->0,
                                ));
                            }
                        }
                        assert(parts_of(found@) =~= done + on_root + with_third + (before
                            + listed(
                            seventh_at(
                                tonic,
                                intervals@,
                                i as int,
                                j as int,
                                k as int,
                                l as int,
                            ),
                        )));
                        l = l + 1;
                    }
                    assert(parts_of(found@) =~= done + on_root + (with_third
                        + sevenths_with_fifth(
                        tonic,
                        intervals@,
                        i as int,
                        j as int,
                        k as int,
                        length as int,
                    )));
                    k = k + 1;
                }
                assert(parts_of(found@) =~= done + (on_root + sevenths_with_third(
                    tonic,
                    intervals@,
                    i as int,
                    j as int,
                    length as int,
                )));
                j = j + 1;
            }
            i = i + 1;
        }
        found
    }
}

/// A set on which a group acts so that any two of its points differ by
/// exactly one element of the group. Note names are such a set under the
/// intervals.
pub trait Torsor<Group>: Sized {
    /// The inputs on which [`Torsor::act`] can be computed.
    spec fn act_req(&self, g: Group) -> bool;

    /// The point reached from this one by an element of the group.
    spec fn act_spec(&self, g: Group) -> Self;

    /// The inputs on which [`Torsor::difference`] can be computed.
    spec fn difference_req(&self, other: &Self) -> bool;

    /// The element of the group that leads from `other` to this point.
    spec fn difference_spec(&self, other: &Self) -> Group;

    /// Moves the point by an element of the group.
    fn act(&self, g: Group) -> (r: Self)
        requires
            self.act_req(g),
        ensures
            r == self.act_spec(g),
    ;

    /// The element of the group that leads from `other` to this point.
    fn difference(&self, other: &Self) -> (r: Group)
        requires
            self.difference_req(other),
        ensures
            r == self.difference_spec(other),
    ;
}

} // verus!
