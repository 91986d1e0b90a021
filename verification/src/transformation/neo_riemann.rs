//! The transformations of triads that keep two notes and move the third:
//! reflections on the line of fifths.
use vstd::prelude::*;

use crate::traits::{notes_above, notes_fit, ChordLike};
use crate::types::chord::{
    all_valid, is_chord_of, lemma_best_root, lemma_score_of_three, major_triad, minor_triad,
};
use crate::types::{Chord, Interval, NoteName};

verus! {

/// A coordinate brought into the range of its type: what lies beyond
/// becomes the nearest end of the range.
pub open spec fn clamped(coordinate: int) -> i8 {
    if coordinate < i8::MIN {
        i8::MIN
    } else if coordinate > i8::MAX {
        i8::MAX
    } else {
        coordinate as i8
    }
}

/// The mirror image of a note on the line of fifths, the midpoint of the
/// two notes of an axis being the mirror.
pub open spec fn mirrored(note: NoteName, axis1: NoteName, axis2: NoteName) -> NoteName {
    NoteName(clamped(axis1.0 + axis2.0 - note.0))
}

/// Whether two notes can be the axis of a reflection: they lie a fifth, a
/// minor third or a major third apart on the line of fifths, that is one,
/// three or four places.
pub open spec fn is_axis(axis1: NoteName, axis2: NoteName) -> bool {
    let apart = axis2.0 - axis1.0;
    apart == 1 || apart == -1 || apart == 3 || apart == -3 || apart == 4 || apart == -4
}

/// A note after the reflection across an axis: the notes of the axis stay,
/// any other is mirrored.
pub open spec fn reflected(note: NoteName, axis1: NoteName, axis2: NoteName) -> NoteName {
    if note == axis1 || note == axis2 {
        note
    } else {
        mirrored(note, axis1, axis2)
    }
}

/// The notes of a list after the reflection across an axis.
pub open spec fn reflected_notes(notes: Seq<NoteName>, axis1: NoteName, axis2: NoteName) -> Seq<
    NoteName,
> {
    Seq::new(notes.len(), |i: int| reflected(notes[i], axis1, axis2))
}

/// Whether a chord can be reflected across an axis: its notes can be
/// computed, and each of their images has a name.
pub open spec fn can_reflect(chord: Chord, axis1: NoteName, axis2: NoteName) -> bool {
    let images = reflected_notes(notes_above(chord.root, chord.intervals@), axis1, axis2);
    &&& is_axis(axis1, axis2)
    &&& notes_fit(chord.root, chord.intervals@)
    &&& all_valid(images)
}

/// The axis of the reflection that [`transform_r`] makes: the root and the
/// major third of a chord with a major third, else the minor third and the
/// fifth.
pub open spec fn relative_axis(chord: Chord) -> (NoteName, NoteName) {
    if chord.is_major() {
        (chord.root, chord.root.transpose(Interval::major_third()))
    } else {
        (
            chord.root.transpose(Interval::minor_third()),
            chord.root.transpose(Interval::perfect_fifth()),
        )
    }
}

/// The roots on which a major or minor triad, mirrored in one of these
/// ways, still has a name for each of its notes.
pub open spec fn has_room(root: NoteName) -> bool {
    -12 <= root.0 <= 15
}

/// Across its root and its fifth, a major triad is reflected into the minor
/// triad on the same root.
pub proof fn lemma_parallel_of_major(root: NoteName, result: Chord)
    requires
        has_room(root),
        is_chord_of(
            reflected_notes(
                notes_above(root, major_triad()),
                root,
                root.transpose(Interval::perfect_fifth()),
            ),
            result,
        ),
    ensures
        result.parts() == (root, minor_triad()),
{
    let notes = notes_above(root, major_triad());
    let images = reflected_notes(notes, root, root.transpose(Interval::perfect_fifth()));
    assert(images[0] == root);
    assert(images[1] == root.transpose(Interval::minor_third()));
    assert(images[2] == root.transpose(Interval::perfect_fifth()));
    lemma_score_of_three(images, images[0]);
    lemma_score_of_three(images, images[1]);
    lemma_score_of_three(images, images[2]);
    lemma_best_root(images, 0);
    assert(result.intervals@ =~= minor_triad());
}

/// Across its root and its fifth, a minor triad is reflected into the major
/// triad on the same root.
pub proof fn lemma_parallel_of_minor(root: NoteName, result: Chord)
    requires
        has_room(root),
        is_chord_of(
            reflected_notes(
                notes_above(root, minor_triad()),
                root,
                root.transpose(Interval::perfect_fifth()),
            ),
            result,
        ),
    ensures
        result.parts() == (root, major_triad()),
{
    let notes = notes_above(root, minor_triad());
    let images = reflected_notes(notes, root, root.transpose(Interval::perfect_fifth()));
    assert(images[0] == root);
    assert(images[1] == root.transpose(Interval::major_third()));
    assert(images[2] == root.transpose(Interval::perfect_fifth()));
    lemma_score_of_three(images, images[0]);
    lemma_score_of_three(images, images[1]);
    lemma_score_of_three(images, images[2]);
    lemma_best_root(images, 0);
    assert(result.intervals@ =~= major_triad());
}

/// Across its root and its third, a major triad is reflected into its
/// relative minor: the root and the third stay, and the fifth moves up a
/// tone to the root of the relative, a major sixth above the old root. The
/// notes keep their places, so that the new root comes last.
pub proof fn lemma_relative_of_major(root: NoteName, result: Chord)
    requires
        has_room(root),
        is_chord_of(
            reflected_notes(
                notes_above(root, major_triad()),
                root,
                root.transpose(Interval::major_third()),
            ),
            result,
        ),
    ensures
        result.parts() == (
            root.transpose(Interval::major_sixth()),
            seq![Interval::minor_third(), Interval::perfect_fifth(), Interval::perfect_unison()],
        ),
{
    let notes = notes_above(root, major_triad());
    let images = reflected_notes(notes, root, root.transpose(Interval::major_third()));
    assert(images[0] == root);
    assert(images[1] == root.transpose(Interval::major_third()));
    assert(images[2] == root.transpose(Interval::major_sixth()));
    lemma_score_of_three(images, images[0]);
    lemma_score_of_three(images, images[1]);
    lemma_score_of_three(images, images[2]);
    lemma_best_root(images, 2);
    assert(result.intervals@ =~= seq![
        Interval::minor_third(),
        Interval::perfect_fifth(),
        Interval::perfect_unison(),
    ]);
}

/// Across its third and its fifth, a minor triad is reflected into its
/// relative major: the third and the fifth stay, and the root moves down a
/// tone to the fifth of the relative, whose root is the old third. The
/// notes keep their places, so that the new root comes second.
pub proof fn lemma_relative_of_minor(root: NoteName, result: Chord)
    requires
        has_room(root),
        is_chord_of(
            reflected_notes(
                notes_above(root, minor_triad()),
                root.transpose(Interval::minor_third()),
                root.transpose(Interval::perfect_fifth()),
            ),
            result,
        ),
    ensures
        result.parts() == (
            root.transpose(Interval::minor_third()),
            seq![Interval::perfect_fifth(), Interval::perfect_unison(), Interval::major_third()],
        ),
{
    let notes = notes_above(root, minor_triad());
    let images = reflected_notes(
        notes,
        root.transpose(Interval::minor_third()),
        root.transpose(Interval::perfect_fifth()),
    );
    assert(images[0] == root.transpose(Interval::minor_seventh()));
    assert(images[1] == root.transpose(Interval::minor_third()));
    assert(images[2] == root.transpose(Interval::perfect_fifth()));
    lemma_score_of_three(images, images[0]);
    lemma_score_of_three(images, images[1]);
    lemma_score_of_three(images, images[2]);
    lemma_best_root(images, 1);
    assert(result.intervals@ =~= seq![
        Interval::perfect_fifth(),
        Interval::perfect_unison(),
        Interval::major_third(),
    ]);
}

/// Turns a major triad into the minor triad on the same root, and a minor
/// into the major: the root and the fifth stay, the third is mirrored
/// between them. The result is the chord of the notes so found, in the
/// order of the notes they come from, on the root that
/// [`Chord::from_notes`] finds among them.
pub fn transform_p(chord: &Chord) -> (r: Chord)
    requires
        chord.root.transpose_fits(Interval::perfect_fifth()),
        can_reflect(*chord, chord.root, chord.root.transpose(Interval::perfect_fifth())),
    ensures
        is_chord_of(
            reflected_notes(
                notes_above(chord.root, chord.intervals@),
                chord.root,
                chord.root.transpose(Interval::perfect_fifth()),
            ),
            r,
        ),
{
    reflect_across_axis(chord, chord.root, chord.root + Interval::perfect_fifth())
}

/// Turns a major triad into its relative minor, and a minor triad into its
/// relative major: the two notes of the major third stay, the remaining
/// note is mirrored between them. The result is the chord of the notes so
/// found, in the order of the notes they come from, on the root that
/// [`Chord::from_notes`] finds among them.
pub fn transform_r(chord: &Chord) -> (r: Chord)
    requires
        chord.root.transpose_fits(Interval::major_third()),
        chord.root.transpose_fits(Interval::minor_third()),
        chord.root.transpose_fits(Interval::perfect_fifth()),
        can_reflect(*chord, relative_axis(*chord).0, relative_axis(*chord).1),
    ensures
        is_chord_of(
            reflected_notes(
                notes_above(chord.root, chord.intervals@),
                relative_axis(*chord).0,
                relative_axis(*chord).1,
            ),
            r,
        ),
{
    if chord.is_major() {
        reflect_across_axis(chord, chord.root, chord.root + Interval::major_third())
    } else {
        reflect_across_axis(
            chord,
            chord.root + Interval::minor_third(),
            chord.root + Interval::perfect_fifth(),
        )
    }
}

/// Reflects the notes of a chord across an axis and makes a chord of them,
/// on the root that [`Chord::from_notes`] finds among them.
pub fn reflect_across_axis(chord: &Chord, axis_note1: NoteName, axis_note2: NoteName) -> (r:
    Chord)
    requires
        can_reflect(*chord, axis_note1, axis_note2),
    ensures
        is_chord_of(
            reflected_notes(notes_above(chord.root, chord.intervals@), axis_note1, axis_note2),
            r,
        ),
{
    let notes = chord.notes();
    let ghost images = reflected_notes(notes@, axis_note1, axis_note2);
    let mut reflected: Vec<NoteName> = Vec::new();
    let mut i: usize = 0;
    while i < notes.len()
        invariant
            i <= notes.len(),
            is_axis(axis_note1, axis_note2),
            images == reflected_notes(notes@, axis_note1, axis_note2),
            reflected@ == images.take(i as int),
        decreases notes.len() - i,
    {
        let note = notes[i];
        let image = if note == axis_note1 || note == axis_note2 {
            note
        } else {
            reflect_point_across_line(note, axis_note1, axis_note2)
        };
        reflected.push(image);
        assert(reflected@ =~= images.take(i + 1));
        i = i + 1;
    }
    assert(images.take(i as int) =~= images);
    Chord::from_notes(reflected.as_slice())
}

/// Mirrors a note on the line of fifths between the two notes of an axis.
pub fn reflect_point_across_line(note: NoteName, axis_note1: NoteName, axis_note2: NoteName) -> (r:
    NoteName)
    requires
        is_axis(axis_note1, axis_note2),
    ensures
        r == mirrored(note, axis_note1, axis_note2),
{
    let reflection: i32 = axis_note1.fifths() as i32 + axis_note2.fifths() as i32
        - note.fifths() as i32;
    let coordinate: i8 = if reflection < -128 {
        -128
    } else if reflection > 127 {
        127
    } else {
        reflection as i8
    };
    NoteName::from_fifths(coordinate)
}

} // verus!
