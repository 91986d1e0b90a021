//! What the search comes to, and why it always comes to something.
//!
//! Two or three candidates sound any target. What the search comes to can
//! therefore be told from what these pay and from their accidentals. One of
//! them is natural or flat, and one is natural or sharp, so that a spelling
//! is found for every move.
use vstd::prelude::*;

use super::chromatic::{
    best_before, candidate_accidental, candidate_count, candidate_letter, candidate_name,
    candidate_penalty, chosen_place, counts, estimated_octave, expected_steps, in_range,
    keeps_direction, lemma_best_before, lemma_candidate_sounds, lemma_found_after,
    letter_bias_penalty, letter_distance, motion_penalty, penalty_at, spec_expected_letter,
    spec_flat_vs_sharp_bias, spelling, spelling_change_penalty, step_penalty, suspicion_penalty,
};
use crate::laws::lemma_round_trip;
use crate::types::{Accidental, Letter, NoteName, Pitch};

verus! {

/// Whether the candidate at place `k` sounds a target of the given pitch
/// class, below zero or not.
#[verifier::opaque]
pub open spec fn sounds(k: int, pitch_class: int, below_zero: bool) -> bool {
    candidate_name(k).pitch_class() == pitch_class && !(below_zero && k == 34)
}

/// A candidate sounds the target exactly where its name does so up to
/// octaves; but B double sharp is lost for a target below zero, where the
/// estimate of the octave is two octaves off.
#[verifier::rlimit(50)]
pub proof fn lemma_counts(source: Pitch, offset: int, k: int)
    requires
        0 <= k < candidate_count(),
        i8::MIN <= source.absolute() + offset <= i8::MAX,
    ensures
        counts(source, offset, k) <==> sounds(
            k,
            (source.absolute() + offset) % 12,
            source.absolute() + offset < 0,
        ),
{
    reveal(counts);
    reveal(sounds);
    let target = source.absolute() + offset;
    let letter = candidate_letter(k);
    let accidental = candidate_accidental(k);
    let written = letter.base_midi_number() + accidental.semitone_offset();
    assert(candidate_name(k).semitones_from_c() == written);
    assert(-2 <= written <= 13);
    assert(written == 13 <==> k == 34);
    lemma_nearest_octave(written, target);
}

/// A note written so many semitones above C can be put in an octave where
/// it sounds the target exactly where it sounds like the target up to
/// octaves; but not, for a target below zero, where it is written 13
/// semitones above C.
#[verifier::rlimit(50)]
pub proof fn lemma_nearest_octave(written: int, target: int)
    requires
        -2 <= written <= 13,
    ensures
        ({
            let estimate = estimated_octave(target);
            let raw = written + 12 * (estimate + 2);
            let octave = if raw - target > 6 {
                estimate - 1
            } else if raw - target < -6 {
                estimate + 1
            } else {
                estimate
            };
            written + 12 * (octave + 2) == target <==> ((written + 12) % 12 == target % 12
                && !(target < 0 && written == 13))
        }),
{
    if target >= 0 {
        assert(target == 12 * (target / 12) + target % 12);
    } else {
        assert(-target == 12 * ((-target) / 12) + (-target) % 12);
    }
}

/// What a candidate at place `k` pays.
#[verifier::opaque]
pub open spec fn paid(source: NoteName, offset: int, k: int) -> int {
    candidate_penalty(source, offset, candidate_name(k))
}

/// Whether the candidate at place `k` keeps the direction of the move.
pub open spec fn fits(source: NoteName, offset: int, k: int) -> bool {
    keeps_direction(source.accidental(), offset, candidate_accidental(k))
}

/// The place of the first candidate that sounds a pitch class.
pub open spec fn first_sounding(pc: int) -> int {
    if pc == 0 {
        2
    } else if pc == 1 {
        3
    } else if pc == 2 {
        4
    } else if pc == 3 {
        8
    } else if pc == 4 {
        9
    } else if pc == 5 {
        13
    } else if pc == 6 {
        14
    } else if pc == 7 {
        19
    } else if pc == 8 {
        23
    } else if pc == 9 {
        24
    } else if pc == 10 {
        0
    } else {
        1
    }
}

/// The place of the second candidate that sounds a pitch class.
pub open spec fn second_sounding(pc: int) -> int {
    if pc == 0 {
        5
    } else if pc == 1 {
        6
    } else if pc == 2 {
        7
    } else if pc == 3 {
        11
    } else if pc == 4 {
        12
    } else if pc == 5 {
        17
    } else if pc == 6 {
        18
    } else if pc == 7 {
        22
    } else if pc == 8 {
        26
    } else if pc == 9 {
        27
    } else if pc == 10 {
        28
    } else {
        29
    }
}

/// The place of the third candidate that sounds a target of a pitch class,
/// or 35 where there are only two.
pub open spec fn third_sounding(pc: int, low: bool) -> int {
    if pc == 0 {
        33
    } else if pc == 1 {
        if low {
            35
        } else {
            34
        }
    } else if pc == 2 {
        10
    } else if pc == 3 {
        15
    } else if pc == 4 {
        16
    } else if pc == 5 {
        20
    } else if pc == 6 {
        21
    } else if pc == 7 {
        25
    } else if pc == 8 {
        35
    } else if pc == 9 {
        30
    } else if pc == 10 {
        31
    } else {
        32
    }
}

/// The semitone of the octave on which each candidate sounds.
pub proof fn lemma_candidate_pitch_class(k: int)
    requires
        0 <= k < 35,
    ensures
        candidate_name(k).pitch_class() == (candidate_letter(k).base_midi_number() + k % 5 + 10)
            % 12,
{
    let l = candidate_letter(k);
    let a = candidate_accidental(k);
    assert(a.semitone_offset() == k % 5 - 2);
    assert(candidate_name(k).semitones_from_c() == l.base_midi_number() + a.semitone_offset());
}

/// Two or three candidates sound a target: one for each letter whose
/// natural note lies at most two semitones from it.
pub proof fn lemma_sounding(pc: int, low: bool)
    requires
        0 <= pc < 12,
    ensures
        0 <= first_sounding(pc) < second_sounding(pc) < third_sounding(pc, low) <= 35,
        forall|k: int|
            0 <= k < 35 ==> (#[trigger] sounds(k, pc, low) <==> (k == first_sounding(pc) || k
                == second_sounding(pc) || k == third_sounding(pc, low))),
{
    assert forall|k: int| 0 <= k < 35 implies (#[trigger] sounds(k, pc, low) <==> (k
        == first_sounding(pc) || k == second_sounding(pc) || k == third_sounding(pc, low))) by {
        reveal(sounds);
        lemma_candidate_pitch_class(k);
        let i = k / 5;
        let j = k % 5;
        assert(k == 5 * i + j);
        assert(0 <= i < 7 && 0 <= j < 5);
    }
}

/// What the candidate at place `k` pays for a move from a pitch is what it
/// pays for a move from the name of the pitch.
pub proof fn lemma_penalty_is_paid(source: Pitch, offset: int, k: int)
    ensures
        penalty_at(source, offset, k) == paid(source.name, offset, k),
{
    reveal(penalty_at);
    reveal(paid);
}

/// The semitones from C up to the natural note of the letter at a place of
/// the scale of C.
pub open spec fn natural_semitones(letter: int) -> int {
    if letter == 0 {
        0
    } else if letter == 1 {
        2
    } else if letter == 2 {
        4
    } else if letter == 3 {
        5
    } else if letter == 4 {
        7
    } else if letter == 5 {
        9
    } else {
        11
    }
}

/// The letter steps from one place of the scale of C up to another.
pub open spec fn steps_between(from: int, to: int) -> int {
    if to >= from {
        to - from
    } else {
        to - from + 7
    }
}

/// The place of the letter on which a move is expected to end.
pub open spec fn expected_place(letter: int, offset: int) -> int {
    let steps = expected_steps(offset);
    if offset >= 0 {
        if letter + steps >= 7 {
            letter + steps - 7
        } else {
            letter + steps
        }
    } else if letter - steps < 0 {
        letter - steps + 7
    } else {
        letter - steps
    }
}

/// Whether a letter with an accidental is one of B sharp, E sharp, C flat
/// and F flat.
pub open spec fn is_avoided(letter: int, sign: int) -> bool {
    (sign == 1 && (letter == 6 || letter == 2)) || (sign == -1 && (letter == 0 || letter == 3))
}

/// What a candidate pays for its accidental, by numbers alone.
pub open spec fn change_fee(sign: int, to_sign: int) -> int {
    if sign == to_sign || to_sign == 0 {
        0
    } else if to_sign == 1 || to_sign == -1 {
        1
    } else {
        3
    }
}

/// What a candidate pays for its letter, by numbers alone: for keeping the
/// letter or going six letters up, and for not being the expected letter.
pub open spec fn letter_fee(letter: int, offset: int, to_letter: int) -> int {
    let distance = steps_between(letter, to_letter);
    (if distance == 6 || distance == 0 {
        2int
    } else {
        0int
    }) + (if to_letter != expected_place(letter, offset) {
        2int
    } else {
        0int
    })
}

/// What a candidate pays for the direction of the move, by numbers alone.
pub open spec fn direction_fee(offset: int, to_sign: int) -> int {
    if (offset < 0 && to_sign < 0) || (offset > 0 && to_sign > 0) || to_sign == 0 {
        0
    } else {
        2
    }
}

/// What a candidate pays for being better avoided, by numbers alone.
pub open spec fn avoided_fee(to_letter: int, to_sign: int) -> int {
    if is_avoided(to_letter, to_sign) {
        3
    } else {
        0
    }
}

/// What a candidate pays, by numbers alone: the places of the two letters in
/// the scale of C, and the semitones by which the two accidentals raise a
/// note.
#[verifier::opaque]
pub open spec fn fee(letter: int, sign: int, offset: int, to_letter: int, to_sign: int) -> int {
    step_penalty(steps_between(letter, to_letter), offset) + change_fee(sign, to_sign)
        + letter_fee(letter, offset, to_letter) + avoided_fee(to_letter, to_sign) + direction_fee(
        offset,
        to_sign,
    )
}

/// Whether a candidate keeps the direction of the move, by numbers alone.
pub open spec fn allowed(sign: int, offset: int, to_sign: int) -> bool {
    if offset < 0 {
        to_sign <= 0 || sign > 0
    } else {
        to_sign >= 0 || sign < 0
    }
}

/// The candidate at place `k` has the letter at place `k / 5` of the scale
/// of C, and an accidental that raises a note by `k % 5 - 2` semitones.
pub proof fn lemma_candidate_parts(k: int)
    requires
        0 <= k < 35,
    ensures
        candidate_name(k).is_valid(),
        candidate_name(k).letter() == candidate_letter(k),
        candidate_name(k).accidental() == candidate_accidental(k),
        candidate_letter(k).index() == k / 5,
        candidate_accidental(k).semitone_offset() == k % 5 - 2,
{
}

/// What is paid for the step and for the letter, by numbers alone.
pub proof fn lemma_letter_fee(letter: Letter, offset: int, to_letter: Letter)
    ensures
        letter_distance(letter, to_letter) == steps_between(
            letter.index() as int,
            to_letter.index() as int,
        ),
        motion_penalty(letter_distance(letter, to_letter)) + letter_bias_penalty(
            to_letter,
            spec_expected_letter(letter, offset),
        ) == letter_fee(letter.index() as int, offset, to_letter.index() as int),
{
    assert(spec_expected_letter(letter, offset).index() == expected_place(
        letter.index() as int,
        offset,
    ));
}

/// What is paid for the accidental and for the direction, by numbers alone.
pub proof fn lemma_sign_fee(accidental: Accidental, offset: int, to_accidental: Accidental)
    ensures
        spelling_change_penalty(accidental, to_accidental) == change_fee(
            accidental.semitone_offset() as int,
            to_accidental.semitone_offset() as int,
        ),
        spec_flat_vs_sharp_bias(to_accidental, offset) == direction_fee(
            offset,
            to_accidental.semitone_offset() as int,
        ),
        keeps_direction(accidental, offset, to_accidental) == allowed(
            accidental.semitone_offset() as int,
            offset,
            to_accidental.semitone_offset() as int,
        ),
{
}

/// What is paid for a spelling that is better avoided, by numbers alone.
pub proof fn lemma_avoided_fee(to_letter: Letter, to_accidental: Accidental)
    ensures
        suspicion_penalty(NoteName::spec_new(to_letter, to_accidental)) == avoided_fee(
            to_letter.index() as int,
            to_accidental.semitone_offset() as int,
        ),
{
}

/// What a spelling pays, by numbers alone.
#[verifier::rlimit(50)]
pub proof fn lemma_name_fee(
    letter: Letter,
    accidental: Accidental,
    offset: int,
    to_letter: Letter,
    to_accidental: Accidental,
)
    ensures
        candidate_penalty(
            NoteName::spec_new(letter, accidental),
            offset,
            NoteName::spec_new(to_letter, to_accidental),
        ) == fee(
            letter.index() as int,
            accidental.semitone_offset() as int,
            offset,
            to_letter.index() as int,
            to_accidental.semitone_offset() as int,
        ),
{
    reveal(fee);
    let source = NoteName::spec_new(letter, accidental);
    let candidate = NoteName::spec_new(to_letter, to_accidental);
    lemma_round_trip(letter, accidental);
    lemma_round_trip(to_letter, to_accidental);
    lemma_letter_fee(letter, offset, to_letter);
    lemma_sign_fee(accidental, offset, to_accidental);
    lemma_avoided_fee(to_letter, to_accidental);
    let distance = letter_distance(letter, to_letter);
    assert(candidate_penalty(source, offset, candidate) == step_penalty(distance, offset)
        + spelling_change_penalty(accidental, to_accidental) + motion_penalty(distance)
        + suspicion_penalty(candidate) + letter_bias_penalty(
        to_letter,
        spec_expected_letter(letter, offset),
    ) + spec_flat_vs_sharp_bias(to_accidental, offset));
}

/// What a candidate pays and whether it keeps the direction, by numbers
/// alone.
#[verifier::rlimit(50)]
pub proof fn lemma_fee(letter: Letter, accidental: Accidental, offset: int, k: int)
    requires
        0 <= k < 35,
    ensures
        paid(NoteName::spec_new(letter, accidental), offset, k) == fee(
            letter.index() as int,
            accidental.semitone_offset() as int,
            offset,
            k / 5,
            k % 5 - 2,
        ),
        fits(NoteName::spec_new(letter, accidental), offset, k) == allowed(
            accidental.semitone_offset() as int,
            offset,
            k % 5 - 2,
        ),
{
    reveal(paid);
    lemma_round_trip(letter, accidental);
    lemma_candidate_parts(k);
    lemma_name_fee(letter, accidental, offset, candidate_letter(k), candidate_accidental(k));
    lemma_sign_fee(accidental, offset, candidate_accidental(k));
}

/// The pitch class of the target of a move, from the letter and the
/// accidental of the source.
pub proof fn lemma_target_pitch_class(source: Pitch, offset: int)
    requires
        source.name.is_valid(),
    ensures
        (natural_semitones(source.name.letter().index() as int)
            + source.name.accidental().semitone_offset() + offset) % 12 == (source.absolute()
            + offset) % 12,
{
    let name = source.name;
    let written = natural_semitones(name.letter().index() as int)
        + name.accidental().semitone_offset();
    assert(name.semitones_from_c() == written);
    assert(source.absolute() + offset == written + offset + 12 * (source.octave + 2));
}

/// The place of a candidate that sounds a pitch class and keeps the
/// direction of any move: the natural note where there is one, else the
/// sharp on the way up and the flat on the way down.
pub open spec fn plain_place(pc: int, offset: int) -> int {
    if pc == 0 {
        2
    } else if pc == 1 {
        if offset > 0 {
            3
        } else {
            6
        }
    } else if pc == 2 {
        7
    } else if pc == 3 {
        if offset > 0 {
            8
        } else {
            11
        }
    } else if pc == 4 {
        12
    } else if pc == 5 {
        17
    } else if pc == 6 {
        if offset > 0 {
            18
        } else {
            21
        }
    } else if pc == 7 {
        22
    } else if pc == 8 {
        if offset > 0 {
            23
        } else {
            26
        }
    } else if pc == 9 {
        27
    } else if pc == 10 {
        if offset > 0 {
            28
        } else {
            31
        }
    } else {
        32
    }
}

/// Every target has a candidate that sounds it and keeps the direction of
/// the move, whatever the accidental of the source.
pub proof fn lemma_plain_place(source: Pitch, offset: int)
    requires
        offset != 0,
        in_range(source, offset),
    ensures
        0 <= plain_place((source.absolute() + offset) % 12, offset) < candidate_count(),
        counts(source, offset, plain_place((source.absolute() + offset) % 12, offset)),
        keeps_direction(
            source.name.accidental(),
            offset,
            candidate_accidental(plain_place((source.absolute() + offset) % 12, offset)),
        ),
{
    let pc = (source.absolute() + offset) % 12;
    let k = plain_place(pc, offset);
    lemma_counts(source, offset, k);
    lemma_candidate_pitch_class(k);
    lemma_candidate_parts(k);
    reveal(sounds);
}

/// The search finds a spelling for every move in range.
pub proof fn lemma_spelling_exists(source: Pitch, offset: int)
    requires
        offset != 0,
        in_range(source, offset),
    ensures
        0 <= chosen_place(source, offset) < candidate_count(),
        spelling(source, offset) is Some,
{
    lemma_plain_place(source, offset);
    lemma_found_after(
        source,
        offset,
        plain_place((source.absolute() + offset) % 12, offset),
        candidate_count(),
    );
    lemma_best_before(source, offset, candidate_count());
}

/// Candidates that do not sound the target change nothing.
pub proof fn lemma_skip(source: Pitch, offset: int, from: int, to: int)
    requires
        0 <= from <= to,
        forall|k: int| from <= k < to ==> !#[trigger] counts(source, offset, k),
    ensures
        best_before(source, offset, to) == best_before(source, offset, from),
    decreases to - from,
{
    if from < to {
        lemma_skip(source, offset, from, to - 1);
        assert(!counts(source, offset, to - 1));
    }
}

/// The place of the best spelling after a candidate that sounds the target,
/// given the place of the best before it.
pub open spec fn best_after(source: NoteName, offset: int, before: int, k: int) -> int {
    if fits(source, offset, k) && (before < 0 || paid(source, offset, k) <= paid(
        source,
        offset,
        before,
    )) {
        k
    } else {
        before
    }
}

/// The place of the best spelling, told from the two or three candidates
/// that sound the target.
pub open spec fn best_of_few(source: NoteName, offset: int, pc: int, low: bool) -> int {
    let first = best_after(source, offset, -1, first_sounding(pc));
    let second = best_after(source, offset, first, second_sounding(pc));
    if third_sounding(pc, low) < 35 {
        best_after(source, offset, second, third_sounding(pc, low))
    } else {
        second
    }
}

/// Going through all the candidates comes to the same as looking at those
/// that sound the target.
#[verifier::rlimit(50)]
pub proof fn lemma_best_of_few(source: Pitch, offset: int)
    requires
        in_range(source, offset),
    ensures
        chosen_place(source, offset) == best_of_few(
            source.name,
            offset,
            (source.absolute() + offset) % 12,
            source.absolute() + offset < 0,
        ),
{
    let pc = (source.absolute() + offset) % 12;
    let low = source.absolute() + offset < 0;
    let a = first_sounding(pc);
    let b = second_sounding(pc);
    let c = third_sounding(pc, low);
    lemma_sounding(pc, low);
    assert forall|k: int| 0 <= k < 35 implies (#[trigger] counts(source, offset, k) <==> (k == a
        || k == b || k == c)) by {
        lemma_counts(source, offset, k);
    }
    lemma_skip(source, offset, 0, a);
    lemma_penalty_is_paid(source, offset, a);
    assert(best_before(source, offset, a + 1) == best_after(source.name, offset, -1, a));
    lemma_skip(source, offset, a + 1, b);
    let first = best_before(source, offset, b);
    lemma_penalty_is_paid(source, offset, b);
    lemma_penalty_is_paid(source, offset, first);
    assert(best_before(source, offset, b + 1) == best_after(source.name, offset, first, b));
    lemma_skip(source, offset, b + 1, c);
    if c < 35 {
        let second = best_before(source, offset, c);
        lemma_penalty_is_paid(source, offset, c);
        lemma_penalty_is_paid(source, offset, second);
        assert(best_before(source, offset, c + 1) == best_after(source.name, offset, second, c));
        lemma_skip(source, offset, c + 1, 35);
    }
}

/// The place of the best spelling after a candidate that sounds the target,
/// by numbers alone.
pub open spec fn place_after(letter: int, sign: int, offset: int, before: int, k: int) -> int {
    if allowed(sign, offset, k % 5 - 2) && (before < 0 || fee(
        letter,
        sign,
        offset,
        k / 5,
        k % 5 - 2,
    ) <= fee(letter, sign, offset, before / 5, before % 5 - 2)) {
        k
    } else {
        before
    }
}

/// The place of the best spelling, by numbers alone: what the two or three
/// candidates that sound the target come to, taken in their order.
#[verifier::opaque]
pub open spec fn chosen_of(letter: int, sign: int, offset: int, pc: int, low: bool) -> int {
    let first = place_after(letter, sign, offset, -1, first_sounding(pc));
    let second = place_after(letter, sign, offset, first, second_sounding(pc));
    if third_sounding(pc, low) < 35 {
        place_after(letter, sign, offset, second, third_sounding(pc, low))
    } else {
        second
    }
}

/// What one step of the search comes to can be told by numbers alone.
pub proof fn lemma_place_after(
    letter: Letter,
    accidental: Accidental,
    offset: int,
    before: int,
    k: int,
)
    requires
        -1 <= before < 35,
        0 <= k < 35,
    ensures
        best_after(NoteName::spec_new(letter, accidental), offset, before, k) == place_after(
            letter.index() as int,
            accidental.semitone_offset() as int,
            offset,
            before,
            k,
        ),
{
    lemma_fee(letter, accidental, offset, k);
    if before >= 0 {
        lemma_fee(letter, accidental, offset, before);
    }
}

/// The spelling of a move, told by numbers alone: its name is that of the
/// candidate at the place that the numbers give, and it sounds the target.
#[verifier::rlimit(50)]
pub proof fn lemma_spelled(source: Pitch, offset: int)
    requires
        offset != 0,
        in_range(source, offset),
    ensures
        spelling(source, offset) matches Some(found) && found.name == candidate_name(
            chosen_of(
                source.name.letter().index() as int,
                source.name.accidental().semitone_offset() as int,
                offset,
                (source.absolute() + offset) % 12,
                source.absolute() + offset < 0,
            ),
        ) && found.absolute() == source.absolute() + offset,
{
    let name = source.name;
    let letter = name.letter();
    let accidental = name.accidental();
    let pc = (source.absolute() + offset) % 12;
    let low = source.absolute() + offset < 0;
    let a = first_sounding(pc);
    let b = second_sounding(pc);
    let c = third_sounding(pc, low);
    assert(NoteName::spec_new(letter, accidental) == name);
    lemma_sounding(pc, low);
    let first = best_after(name, offset, -1, a);
    let second = best_after(name, offset, first, b);
    lemma_place_after(letter, accidental, offset, -1, a);
    lemma_place_after(letter, accidental, offset, first, b);
    if c < 35 {
        lemma_place_after(letter, accidental, offset, second, c);
    }
    lemma_best_of_few(source, offset);
    lemma_spelling_exists(source, offset);
    lemma_best_before(source, offset, candidate_count());
    lemma_candidate_sounds(source, offset, chosen_place(source, offset));
    reveal(chosen_of);
}

} // verus!
