//! Transposition by semitones with a search for the conventional spelling.
use vstd::prelude::*;

use super::reach::lemma_spelling_exists;
use super::Transposer;
use crate::arith::wrap_letters;
use crate::types::{Accidental, Letter, NoteName, Pitch};

verus! {

/// Transposes by semitones and picks, among the names that the target can
/// have, the one that a musician would most likely write.
///
/// Every letter is tried with every accidental, 35 candidates in all, in the
/// order of [`Letter::all`] and, within a letter, of [`Accidental::all`]. A
/// candidate counts when it can be put in an octave where it sounds the
/// target. Each candidate that counts is given a penalty. The search keeps
/// the best spelling so far. A candidate takes its place when it pays no
/// more than the best so far and does not go against the direction of the
/// move: no sharp on the way down unless the source has one, no flat on the
/// way up unless the source has one. A candidate that goes against the
/// direction changes nothing, however little it pays. The best after the
/// last candidate is the result.
///
/// Every move within the range of the pitch numbers has a spelling: each
/// semitone of the octave has a name that is natural or flat and one that
/// is natural or sharp.
pub struct ChromaticTransposer;

/// The number of candidates: seven letters with five accidentals each.
pub open spec fn candidate_count() -> int {
    35
}

/// The letter of the candidate at a place of the search.
pub open spec fn candidate_letter(k: int) -> Letter {
    Letter::from_index((k / 5) as i8)
}

/// The accidental of the candidate at a place of the search.
pub open spec fn candidate_accidental(k: int) -> Accidental {
    Accidental::from_semitone_offset((k % 5 - 2) as i8)
}

/// The octave in which the search first puts every candidate: the target's
/// count of whole octaves, rounded towards zero, counted from octave -2.
pub open spec fn estimated_octave(target: int) -> int {
    if target >= 0 {
        target / 12 - 2
    } else {
        -((-target) / 12) - 2
    }
}

/// The octave in which a candidate is finally put: the estimated one, or its
/// neighbour where the candidate would else lie more than a tritone from the
/// target.
pub open spec fn candidate_octave(letter: Letter, accidental: Accidental, target: int) -> int {
    let estimate = estimated_octave(target);
    let raw = letter.base_midi_number() + accidental.semitone_offset() + 12 * (estimate + 2);
    if raw - target > 6 {
        estimate - 1
    } else if raw - target < -6 {
        estimate + 1
    } else {
        estimate
    }
}

/// The absolute value of a candidate in its octave.
pub open spec fn candidate_absolute(letter: Letter, accidental: Accidental, target: int) -> int {
    letter.base_midi_number() + accidental.semitone_offset() + 12 * (candidate_octave(
        letter,
        accidental,
        target,
    ) + 2)
}

/// The letter steps from one letter up to another, from 0 to 6.
pub open spec fn letter_distance(from: Letter, to: Letter) -> int {
    (to.index() - from.index()) % 7
}

/// Whether a move by so many letters and so many semitones is a step of the
/// major scale or of one of its modes: a unison, a minor or major second,
/// third, sixth or seventh, a perfect fourth or fifth, or an octave, up or
/// down.
pub open spec fn is_diatonic_step(letter_diff: int, semitone_diff: int) -> bool {
    ||| (letter_diff == 0 && semitone_diff == 0)
    ||| (letter_diff == 1 && (semitone_diff == 1 || semitone_diff == 2))
    ||| (letter_diff == 2 && (semitone_diff == 3 || semitone_diff == 4))
    ||| (letter_diff == 3 && semitone_diff == 5)
    ||| (letter_diff == 4 && semitone_diff == 7)
    ||| (letter_diff == 5 && (semitone_diff == 8 || semitone_diff == 9))
    ||| (letter_diff == 6 && (semitone_diff == 10 || semitone_diff == 11))
    ||| (letter_diff == 0 && (semitone_diff == 12 || semitone_diff == -12))
    ||| (letter_diff == 6 && (semitone_diff == -1 || semitone_diff == -2))
    ||| (letter_diff == 5 && (semitone_diff == -3 || semitone_diff == -4))
    ||| (letter_diff == 4 && semitone_diff == -5)
    ||| (letter_diff == 3 && semitone_diff == -7)
    ||| (letter_diff == 2 && (semitone_diff == -8 || semitone_diff == -9))
    ||| (letter_diff == 1 && (semitone_diff == -10 || semitone_diff == -11))
}

/// What a move by so many letters and so many semitones pays: nothing for a
/// diatonic step, 1 for a tritone, 2 for another move by one or two
/// semitones, 4 for anything else.
pub open spec fn step_penalty(letter_diff: int, semitone_diff: int) -> int {
    if is_diatonic_step(letter_diff, semitone_diff) {
        0
    } else if semitone_diff == 6 || semitone_diff == -6 {
        1
    } else if semitone_diff == 1 || semitone_diff == -1 || semitone_diff == 2 || semitone_diff
        == -2 {
        2
    } else {
        4
    }
}

/// The letter steps that a move by so many semitones is expected to take.
pub open spec fn expected_steps(semitones: int) -> int {
    let size = if semitones < 0 {
        -semitones
    } else {
        semitones
    };
    if size == 0 {
        0
    } else if size <= 2 {
        1
    } else if size <= 4 {
        2
    } else if size == 5 {
        3
    } else if size <= 7 {
        4
    } else if size <= 9 {
        5
    } else if size <= 11 {
        6
    } else {
        7
    }
}

/// The letter on which a move by so many semitones is expected to end:
/// the expected letter steps up from the source for a move up, down for a
/// move down.
pub open spec fn spec_expected_letter(from: Letter, semitone_offset: int) -> Letter {
    let steps = if semitone_offset >= 0 {
        expected_steps(semitone_offset)
    } else {
        -expected_steps(semitone_offset)
    };
    Letter::from_index(((from.index() + steps) % 7) as i8)
}

/// What an accidental pays for the direction of the move: nothing for a
/// natural, for a flat on the way down and for a sharp on the way up, 2
/// otherwise.
pub open spec fn spec_flat_vs_sharp_bias(accidental: Accidental, semitone_offset: int) -> int {
    if semitone_offset < 0 && accidental.is_flat() {
        0
    } else if semitone_offset > 0 && accidental.is_sharp() {
        0
    } else if accidental == Accidental::Natural {
        0
    } else {
        2
    }
}

/// What a candidate pays for its accidental: nothing where the source has
/// the same one, else the accidental's own penalty.
pub open spec fn spelling_change_penalty(source: Accidental, accidental: Accidental) -> int {
    if source != accidental {
        accidental.penalty() as int
    } else {
        0
    }
}

/// What a candidate pays for its letter as such: 2 for keeping the source's
/// letter or for going six letters up.
pub open spec fn motion_penalty(distance: int) -> int {
    if distance == 6 || distance == 0 {
        2
    } else {
        0
    }
}

/// What a candidate pays for being one of B sharp, E sharp, C flat, F flat: 3.
pub open spec fn suspicion_penalty(candidate: NoteName) -> int {
    if (Pitch { name: candidate, octave: 0 }).is_suspicious_spelling() {
        3
    } else {
        0
    }
}

/// What a candidate pays for ending on another letter than the expected
/// one: 2.
pub open spec fn letter_bias_penalty(letter: Letter, expected: Letter) -> int {
    if letter != expected {
        2
    } else {
        0
    }
}

/// The whole penalty of a candidate that sounds the target, as a spelling
/// of the source moved by `offset` semitones. It is the sum of what is paid
/// for
/// - the step from the source, by letters and semitones;
/// - the accidental, unless the source has the same one;
/// - keeping the source's letter or going six letters up;
/// - being one of B sharp, E sharp, C flat, F flat;
/// - ending on another letter than the expected one;
/// - an accidental against the direction of the move.
pub open spec fn candidate_penalty(source: NoteName, offset: int, candidate: NoteName) -> int {
    let distance = letter_distance(source.letter(), candidate.letter());
    step_penalty(distance, offset) + spelling_change_penalty(
        source.accidental(),
        candidate.accidental(),
    ) + motion_penalty(distance) + suspicion_penalty(candidate) + letter_bias_penalty(
        candidate.letter(),
        spec_expected_letter(source.letter(), offset),
    ) + spec_flat_vs_sharp_bias(candidate.accidental(), offset)
}

/// Whether an accidental may be chosen for a move in the given direction
/// from a source with the given accidental.
pub open spec fn keeps_direction(
    source: Accidental,
    offset: int,
    accidental: Accidental,
) -> bool {
    if offset < 0 {
        !accidental.is_sharp() || source.is_sharp()
    } else {
        !accidental.is_flat() || source.is_flat()
    }
}

/// Whether the candidate at place `k` sounds the target.
#[verifier::opaque]
pub open spec fn counts(source: Pitch, offset: int, k: int) -> bool {
    candidate_absolute(candidate_letter(k), candidate_accidental(k), source.absolute() + offset)
        == source.absolute() + offset
}

/// The name of the candidate at place `k`.
pub open spec fn candidate_name(k: int) -> NoteName {
    NoteName::spec_new(candidate_letter(k), candidate_accidental(k))
}

/// The penalty of the candidate at place `k`.
#[verifier::opaque]
pub open spec fn penalty_at(source: Pitch, offset: int, k: int) -> int {
    candidate_penalty(source.name, offset, candidate_name(k))
}

/// The candidate at place `k` as a pitch, in its octave.
#[verifier::opaque]
pub open spec fn candidate_pitch(source: Pitch, offset: int, k: int) -> Pitch {
    Pitch {
        name: candidate_name(k),
        octave: candidate_octave(
            candidate_letter(k),
            candidate_accidental(k),
            source.absolute() + offset,
        ) as i8,
    }
}

/// Whether the candidate at place `k` takes the place of the best spelling
/// so far, which stands at place `before`, or nowhere yet where `before` is
/// -1: it sounds the target, its accidental keeps the direction of the move,
/// and it pays no more than the best so far.
pub open spec fn is_accepted(source: Pitch, offset: int, before: int, k: int) -> bool {
    &&& counts(source, offset, k)
    &&& keeps_direction(source.name.accidental(), offset, candidate_accidental(k))
    &&& (before >= 0 ==> penalty_at(source, offset, k) <= penalty_at(source, offset, before))
}

/// The place of the best spelling among the first `k` candidates, or -1
/// where none of them was accepted: each candidate in turn takes the place
/// of the best before it where it is accepted, and changes nothing else.
pub open spec fn best_before(source: Pitch, offset: int, k: int) -> int
    decreases k,
{
    if k <= 0 {
        -1
    } else {
        let before = best_before(source, offset, k - 1);
        if is_accepted(source, offset, before, k - 1) {
            k - 1
        } else {
            before
        }
    }
}

/// The place of the best spelling among all the candidates.
pub open spec fn chosen_place(source: Pitch, offset: int) -> int {
    best_before(source, offset, candidate_count())
}

/// The pitches that the search can start from for a move by `offset`
/// semitones: the name is valid, and both the pitch and the target lie
/// within the 256 semitones that a pitch number can hold.
pub open spec fn in_range(source: Pitch, offset: int) -> bool {
    &&& source.name.is_valid()
    &&& i8::MIN <= source.absolute() <= i8::MAX
    &&& i8::MIN <= source.absolute() + offset <= i8::MAX
}

/// The spelling that the search picks for a move by `offset` semitones: the
/// source itself for no move at all, else the best of all the candidates.
pub open spec fn spelling(source: Pitch, offset: int) -> Option<Pitch> {
    if offset == 0 {
        Some(source)
    } else if chosen_place(source, offset) >= 0 {
        Some(candidate_pitch(source, offset, chosen_place(source, offset)))
    } else {
        None
    }
}

/// The best of the first `k` candidates, where there is one, is one of
/// them, sounds the target and keeps the direction of the move.
pub proof fn lemma_best_before(source: Pitch, offset: int, k: int)
    requires
        0 <= k,
    ensures
        -1 <= best_before(source, offset, k) < k,
        best_before(source, offset, k) >= 0 ==> counts(
            source,
            offset,
            best_before(source, offset, k),
        ) && keeps_direction(
            source.name.accidental(),
            offset,
            candidate_accidental(best_before(source, offset, k)),
        ),
    decreases k,
{
    if k > 0 {
        lemma_best_before(source, offset, k - 1);
    }
}

/// Once a candidate that sounds the target and keeps the direction of the
/// move has been seen, there is a best spelling.
pub proof fn lemma_found_after(source: Pitch, offset: int, j: int, k: int)
    requires
        0 <= j < k,
        counts(source, offset, j),
        keeps_direction(source.name.accidental(), offset, candidate_accidental(j)),
    ensures
        best_before(source, offset, k) >= 0,
    decreases k,
{
    lemma_best_before(source, offset, k - 1);
    if j < k - 1 {
        lemma_found_after(source, offset, j, k - 1);
    }
}

/// A candidate that sounds the target has a valid name, and as a pitch it
/// lies on the target.
pub proof fn lemma_candidate_sounds(source: Pitch, offset: int, k: int)
    requires
        0 <= k < candidate_count(),
        in_range(source, offset),
        counts(source, offset, k),
    ensures
        candidate_pitch(source, offset, k).name == candidate_name(k),
        candidate_pitch(source, offset, k).name.is_valid(),
        candidate_pitch(source, offset, k).name.accidental() == candidate_accidental(k),
        candidate_pitch(source, offset, k).absolute() == source.absolute() + offset,
{
    reveal(counts);
    reveal(candidate_pitch);
    let letter = candidate_letter(k);
    let accidental = candidate_accidental(k);
    assert(candidate_name(k).is_valid());
    assert(candidate_name(k).accidental() == accidental);
    assert(candidate_name(k).semitones_from_c() == letter.base_midi_number()
        + accidental.semitone_offset());
}

/// What the search knows after the first `k` candidates: `best` is the best
/// spelling among them and `best_score` is what it pays, or more than any
/// candidate can pay where there is none yet.
pub open spec fn search_state(
    source: Pitch,
    offset: int,
    k: int,
    best: Option<Pitch>,
    best_score: int,
) -> bool {
    let at = best_before(source, offset, k);
    &&& 0 <= k <= candidate_count()
    &&& at < 0 ==> best is None && best_score == i32::MAX
    &&& at >= 0 ==> best == Some(candidate_pitch(source, offset, at)) && best_score
        == penalty_at(source, offset, at)
}

/// The spelling that the search picks for a move sounds the target, has a
/// valid name, and keeps the direction of the move: it has no flat on the
/// way up and no sharp on the way down, unless the source has one.
pub proof fn lemma_spelling_sounds_target(source: Pitch, offset: int)
    requires
        offset != 0,
        in_range(source, offset),
    ensures
        spelling(source, offset) is Some,
        spelling(source, offset)->0.name.is_valid(),
        spelling(source, offset)->0.absolute() == source.absolute() + offset,
        keeps_direction(
            source.name.accidental(),
            offset,
            spelling(source, offset)->0.name.accidental(),
        ),
{
    lemma_spelling_exists(source, offset);
    lemma_best_before(source, offset, candidate_count());
    lemma_candidate_sounds(source, offset, chosen_place(source, offset));
}

impl ChromaticTransposer {
    /// Searches for the spelling of a pitch moved by so many semitones. A
    /// pitch that does not move is handed back as it is. For a move there is
    /// always a spelling: it has a valid name, sounds the target, and keeps
    /// the direction of the move.
    pub fn select(pitch: Pitch, semitone_offset: i8) -> (r: Option<Pitch>)
        requires
            semitone_offset != 0 ==> in_range(pitch, semitone_offset as int),
        ensures
            r == spelling(pitch, semitone_offset as int),
            semitone_offset == 0 ==> r == Some(pitch),
            semitone_offset != 0 ==> (r matches Some(found) && found.name.is_valid()
                && found.absolute() == pitch.absolute() + semitone_offset && keeps_direction(
                pitch.name.accidental(),
                semitone_offset as int,
                found.name.accidental(),
            )),
    {
        if semitone_offset == 0 {
            return Some(pitch);
        }
        let ghost offset = semitone_offset as int;
        let target: i32 = pitch.absolute_value() + semitone_offset as i32;
        let letters = Letter::all();
        let accidentals = Accidental::all();
        let source_accidental = pitch.name.accidental();

        let mut best: Option<Pitch> = None;
        let mut best_score: i32 = i32::MAX;

        let mut i: usize = 0;
        while i < 7
            invariant
                i <= 7,
                semitone_offset != 0,
                offset == semitone_offset,
                in_range(pitch, offset),
                target == pitch.absolute() + offset,
                letters@ == Letter::spec_all(),
                accidentals@ == Accidental::spec_all(),
                source_accidental == pitch.name.accidental(),
                search_state(pitch, offset, 5 * i, best, best_score as int),
            decreases 7 - i,
        {
            let letter = letters[i];
            let mut j: usize = 0;
            while j < 5
                invariant
                    i < 7,
                    j <= 5,
                    semitone_offset != 0,
                    offset == semitone_offset,
                    in_range(pitch, offset),
                    target == pitch.absolute() + offset,
                    letter == Letter::spec_all()[i as int],
                    accidentals@ == Accidental::spec_all(),
                    source_accidental == pitch.name.accidental(),
                    search_state(pitch, offset, 5 * i + j, best, best_score as int),
                decreases 5 - j,
            {
                let ghost k: int = 5 * i + j;
                let ghost before = best;
                let ghost score_before = best_score as int;
                let accidental = accidentals[j];
                proof {
                    lemma_candidate_at(i as int, j as int);
                }
                let guess = candidate(letter, accidental, target);
                assert(guess == candidate_pitch(pitch, offset, k)) by {
                    reveal(candidate_pitch);
                }
                assert(counts(pitch, offset, k) == (guess.absolute() == target)) by {
                    reveal(counts);
                }
                if guess.absolute_value() == target {
                    let total = penalty(&pitch, semitone_offset, &guess);
                    assert(total == penalty_at(pitch, offset, k)) by {
                        reveal(penalty_at);
                    }
                    if total <= best_score {
                        if semitone_offset < 0 && (!accidental.is_sharp()
                            || source_accidental.is_sharp()) {
                            best = Some(guess);
                            best_score = total;
                        }
                        if semitone_offset > 0 && (!accidental.is_flat()
                            || source_accidental.is_flat()) {
                            best = Some(guess);
                            best_score = total;
                        }
                    }
                }
                proof {
                    lemma_penalty_bounds(pitch, offset, k);
                    lemma_search_step(pitch, offset, k, before, score_before);
                }
                j = j + 1;
            }
            i = i + 1;
        }
        proof {
            lemma_spelling_sounds_target(pitch, offset);
        }
        best
    }
}

/// The candidate at place `5 * i + j` has the letter at place `i` and the
/// accidental at place `j`.
pub proof fn lemma_candidate_at(i: int, j: int)
    requires
        0 <= i < 7,
        0 <= j < 5,
    ensures
        candidate_letter(5 * i + j) == Letter::spec_all()[i],
        candidate_accidental(5 * i + j) == Accidental::spec_all()[j],
{
    assert((5 * i + j) / 5 == i);
    assert((5 * i + j) % 5 == j);
}

/// No candidate pays less than nothing or more than 16.
pub proof fn lemma_penalty_bounds(source: Pitch, offset: int, k: int)
    ensures
        0 <= penalty_at(source, offset, k) <= 16,
{
    reveal(penalty_at);
}

/// What the search knows after one more candidate, given what it knew
/// before: a candidate that is accepted becomes the best, and any other
/// changes nothing.
pub proof fn lemma_search_step(
    source: Pitch,
    offset: int,
    k: int,
    best: Option<Pitch>,
    best_score: int,
)
    requires
        search_state(source, offset, k, best, best_score),
        k < candidate_count(),
        penalty_at(source, offset, k) < i32::MAX,
    ensures
        is_accepted(source, offset, best_before(source, offset, k), k) <==> counts(
            source,
            offset,
            k,
        ) && penalty_at(source, offset, k) <= best_score && keeps_direction(
            source.name.accidental(),
            offset,
            candidate_accidental(k),
        ),
        is_accepted(source, offset, best_before(source, offset, k), k) ==> search_state(
            source,
            offset,
            k + 1,
            Some(candidate_pitch(source, offset, k)),
            penalty_at(source, offset, k),
        ),
        !is_accepted(source, offset, best_before(source, offset, k), k) ==> search_state(
            source,
            offset,
            k + 1,
            best,
            best_score,
        ),
{
    lemma_best_before(source, offset, k);
}

/// Puts a letter with an accidental in the octave where it lies nearest to
/// the target.
#[verifier::rlimit(50)]
fn candidate(letter: Letter, accidental: Accidental, target: i32) -> (r: Pitch)
    requires
        i8::MIN <= target <= i8::MAX,
    ensures
        r == (Pitch {
            name: NoteName::spec_new(letter, accidental),
            octave: candidate_octave(letter, accidental, target as int) as i8,
        }),
        r.octave == candidate_octave(letter, accidental, target as int),
        r.name.is_valid(),
        r.name.letter() == letter,
        r.name.accidental() == accidental,
        r.absolute() == candidate_absolute(letter, accidental, target as int),
{
    let estimate: i32 = target / 12 - 2;
    let raw: i32 = letter.base_midi_number() as i32 + accidental.semitone_offset() as i32 + 12
        * (estimate + 2);
    let diff: i32 = raw - target;
    let octave: i32 = if diff > 6 {
        estimate - 1
    } else if diff < -6 {
        estimate + 1
    } else {
        estimate
    };
    Pitch::new(letter, accidental, octave as i8)
}

/// The whole penalty of a spelling of the source moved by so many semitones.
#[verifier::rlimit(50)]
fn penalty(source: &Pitch, semitone_offset: i8, guess: &Pitch) -> (r: i32)
    requires
        source.name.is_valid(),
        guess.name.is_valid(),
        guess.absolute() == source.absolute() + semitone_offset,
    ensures
        r == candidate_penalty(source.name, semitone_offset as int, guess.name),
        0 <= r <= 16,
{
    let letter = guess.name.letter();
    let accidental = guess.name.accidental();
    let source_letter = source.name.letter();
    let step = interval_penalty(source, guess);
    let change = spelling_change(source.name.accidental(), accidental);
    let motion = unnatural_motion(source_letter, letter);
    let suspicion = enharmonic_suspicion(guess);
    let letter_bias = letter_bias(letter, expected_letter(source_letter, semitone_offset));
    let direction = flat_vs_sharp_bias(accidental, semitone_offset);
    step + change + motion + suspicion + letter_bias + direction
}

/// What a candidate pays for its accidental.
fn spelling_change(source: Accidental, accidental: Accidental) -> (r: i32)
    ensures
        r == spelling_change_penalty(source, accidental),
        0 <= r <= 3,
{
    if source != accidental {
        accidental.penalty()
    } else {
        0
    }
}

/// What a candidate pays for keeping the letter or going six letters up.
fn unnatural_motion(from: Letter, to: Letter) -> (r: i32)
    ensures
        r == motion_penalty(letter_distance(from, to)),
        0 <= r <= 2,
{
    let distance = letter_steps(from, to);
    if distance == 6 || distance == 0 {
        2
    } else {
        0
    }
}

/// What a candidate pays for being a spelling that is better avoided.
fn enharmonic_suspicion(guess: &Pitch) -> (r: i32)
    requires
        guess.name.is_valid(),
    ensures
        r == suspicion_penalty(guess.name),
        0 <= r <= 3,
{
    if guess.is_suspicious_spelling() {
        3
    } else {
        0
    }
}

/// What a candidate pays for ending on another letter than the expected one.
fn letter_bias(letter: Letter, expected: Letter) -> (r: i32)
    ensures
        r == letter_bias_penalty(letter, expected),
        0 <= r <= 2,
{
    if letter != expected {
        2
    } else {
        0
    }
}

impl Transposer for ChromaticTransposer {
    /// Any pitch can stay where it is. For a move, the pitch and the target
    /// must be in range.
    open spec fn accepts(pitch: Pitch, interval: i8) -> bool {
        interval != 0 ==> in_range(pitch, interval as int)
    }

    open spec fn transposed(pitch: Pitch, interval: i8) -> Pitch {
        spelling(pitch, interval as int)->0
    }

    fn transpose(pitch: Pitch, semitone_offset: i8) -> (r: Pitch)
        ensures
            semitone_offset == 0 ==> r == pitch,
            semitone_offset != 0 ==> r.name.is_valid() && r.absolute() == pitch.absolute()
                + semitone_offset && keeps_direction(
                pitch.name.accidental(),
                semitone_offset as int,
                r.name.accidental(),
            ),
    {
        Self::select(pitch, semitone_offset).unwrap()
    }

    fn name() -> (r: &'static str)
        ensures
            r@ == "ChromaticTransposer"@,
    {
        "ChromaticTransposer"
    }
}

/// What the step from one pitch to another pays, by the letters and the
/// semitones between them.
pub fn interval_penalty(from: &Pitch, to: &Pitch) -> (r: i32)
    requires
        from.name.is_valid(),
        to.name.is_valid(),
    ensures
        r == step_penalty(
            letter_distance(from.name.letter(), to.name.letter()),
            to.absolute() - from.absolute(),
        ),
        0 <= r <= 4,
{
    let letter_diff = letter_steps(from.name.letter(), to.name.letter());
    let semitone_diff: i64 = to.absolute_value() as i64 - from.absolute_value() as i64;
    step_cost(letter_diff, semitone_diff)
}

/// The letter steps from one letter up to another.
fn letter_steps(from: Letter, to: Letter) -> (r: i32)
    ensures
        r == letter_distance(from, to),
        0 <= r < 7,
{
    wrap_letters(to.index() as i32 - from.index() as i32)
}

/// What a move by so many letters and so many semitones pays.
fn step_cost(letter_diff: i32, semitone_diff: i64) -> (r: i32)
    ensures
        r == step_penalty(letter_diff as int, semitone_diff as int),
        0 <= r <= 4,
{
    if letter_diff == 0 && semitone_diff == 0 {
        0
    } else if (letter_diff == 1 && semitone_diff == 1) || (letter_diff == 6 && semitone_diff
        == -1) {
        0
    } else if (letter_diff == 1 && semitone_diff == 2) || (letter_diff == 6 && semitone_diff
        == -2) {
        0
    } else if (letter_diff == 2 && semitone_diff == 3) || (letter_diff == 5 && semitone_diff
        == -3) {
        0
    } else if (letter_diff == 2 && semitone_diff == 4) || (letter_diff == 5 && semitone_diff
        == -4) {
        0
    } else if (letter_diff == 3 && semitone_diff == 5) || (letter_diff == 4 && semitone_diff
        == -5) {
        0
    } else if (letter_diff == 4 && semitone_diff == 6) || (letter_diff == 3 && semitone_diff
        == -6) {
        1
    } else if (letter_diff == 4 && semitone_diff == 7) || (letter_diff == 3 && semitone_diff
        == -7) {
        0
    } else if (letter_diff == 5 && semitone_diff == 8) || (letter_diff == 2 && semitone_diff
        == -8) {
        0
    } else if (letter_diff == 5 && semitone_diff == 9) || (letter_diff == 2 && semitone_diff
        == -9) {
        0
    } else if (letter_diff == 6 && semitone_diff == 10) || (letter_diff == 1 && semitone_diff
        == -10) {
        0
    } else if (letter_diff == 6 && semitone_diff == 11) || (letter_diff == 1 && semitone_diff
        == -11) {
        0
    } else if letter_diff == 0 && (semitone_diff == 12 || semitone_diff == -12) {
        0
    } else if semitone_diff == 6 || semitone_diff == -6 {
        1
    } else if semitone_diff == 1 || semitone_diff == -1 || semitone_diff == 2 || semitone_diff
        == -2 {
        2
    } else {
        4
    }
}

/// The letter on which a move by so many semitones is expected to end.
pub fn expected_letter(from: Letter, semitone_offset: i8) -> (r: Letter)
    ensures
        r == spec_expected_letter(from, semitone_offset as int),
{
    let size: i32 = if semitone_offset < 0 {
        0 - (semitone_offset as i32)
    } else {
        semitone_offset as i32
    };
    let steps: i32 = if size == 0 {
        0
    } else if size <= 2 {
        1
    } else if size <= 4 {
        2
    } else if size == 5 {
        3
    } else if size <= 7 {
        4
    } else if size <= 9 {
        5
    } else if size <= 11 {
        6
    } else {
        7
    };
    let place: i32 = if semitone_offset >= 0 {
        wrap_letters(from.index() as i32 + steps)
    } else {
        wrap_letters(from.index() as i32 - steps)
    };
    Letter::from_index(place as i8)
}

/// What an accidental pays for the direction of the move.
pub fn flat_vs_sharp_bias(accidental: Accidental, semitone_offset: i8) -> (r: i32)
    ensures
        r == spec_flat_vs_sharp_bias(accidental, semitone_offset as int),
        0 <= r <= 2,
{
    if semitone_offset < 0 && accidental.is_flat() {
        0
    } else if semitone_offset > 0 && accidental.is_sharp() {
        0
    } else if accidental == Accidental::Natural {
        0
    } else {
        2
    }
}

} // verus!
