//! The laws that the library obeys.
//!
//! First the algebra: the intervals are a group, and the note names a torsor
//! under it. The sums, differences and inverses here are the ones that the
//! contracts of `+`, `-` and unary `-` speak of: [`Interval::sum`],
//! [`Interval::difference`], [`Interval::inverse`], [`NoteName::transpose`]
//! and [`NoteName::interval_to`]. They wrap each component to its eight
//! bits, so the laws hold of all values; the operators themselves ask that
//! nothing wraps.
//!
//! Then reading and writing: what is written is read back. Last the
//! spellings that the search for a transposed pitch is known by, each in
//! every octave.
use vstd::prelude::*;

use crate::error::ParseFault;
use crate::text::{decimal, is_digit, lemma_decimal_digits, lemma_decimal_round_trip, parse_u8};
use crate::transposition::chromatic::{
    candidate_accidental, candidate_letter, in_range, lemma_spelling_sounds_target, spelling,
};
use crate::transposition::reach::{
    chosen_of, fee, lemma_candidate_parts, lemma_spelled, lemma_target_pitch_class,
    natural_semitones,
};
use crate::transposition::{ChromaticTransposer, Transposer};
use crate::types::interval::notation::run_length;
use crate::types::pitch::{begins_octave, octave_start_from};
use crate::types::{Accidental, Interval, Letter, NoteName, Pitch};

verus! {

/// Adding the unison changes nothing: `a + unison == a`.
pub proof fn lemma_unison_is_identity(a: Interval)
    ensures
        a.sum(Interval::perfect_unison()) == a,
        Interval::perfect_unison().sum(a) == a,
{
}

/// An interval and its inverse add up to the unison: `a + (-a) == unison`.
pub proof fn lemma_negation_is_inverse(a: Interval)
    ensures
        a.sum(a.inverse()) == Interval::perfect_unison(),
        a.inverse().sum(a) == Interval::perfect_unison(),
{
    let f = a.fifths;
    let o = a.octaves;
    assert(((f + ((-f) as i8)) as i8) == 0i8) by (bit_vector);
    assert(((o + ((-o) as i8)) as i8) == 0i8) by (bit_vector);
    assert(((((-f) as i8) + f) as i8) == 0i8) by (bit_vector);
    assert(((((-o) as i8) + o) as i8) == 0i8) by (bit_vector);
}

/// Addition may be bracketed either way: `(a + b) + c == a + (b + c)`.
pub proof fn lemma_addition_is_associative(a: Interval, b: Interval, c: Interval)
    ensures
        a.sum(b).sum(c) == a.sum(b.sum(c)),
{
    let (x, y, z) = (a.fifths, b.fifths, c.fifths);
    assert(((((x + y) as i8) + z) as i8) == ((x + ((y + z) as i8)) as i8)) by (bit_vector);
    let (x, y, z) = (a.octaves, b.octaves, c.octaves);
    assert(((((x + y) as i8) + z) as i8) == ((x + ((y + z) as i8)) as i8)) by (bit_vector);
}

/// The order of two intervals in a sum does not matter: `a + b == b + a`.
pub proof fn lemma_addition_commutes(a: Interval, b: Interval)
    ensures
        a.sum(b) == b.sum(a),
{
}

/// Taking an interval away is adding its inverse: `a - b == a + (-b)`.
pub proof fn lemma_subtraction_adds_inverse(a: Interval, b: Interval)
    ensures
        a.difference(b) == a.sum(b.inverse()),
{
    let (x, y) = (a.fifths, b.fifths);
    assert(((x - y) as i8) == ((x + ((-y) as i8)) as i8)) by (bit_vector);
    let (x, y) = (a.octaves, b.octaves);
    assert(((x - y) as i8) == ((x + ((-y) as i8)) as i8)) by (bit_vector);
}

/// What leads from a name to the name an interval away is that interval:
/// `(p + v) - p == v`, for an interval within one octave. The difference of
/// two names never has octaves, so the law cannot hold of an interval that
/// has some.
pub proof fn lemma_difference_undoes_action(p: NoteName, v: Interval)
    requires
        v.octaves == 0,
    ensures
        p.interval_to(p.transpose(v)) == v,
{
    let (x, y) = (p.0, v.fifths);
    assert(((((x + y) as i8) - x) as i8) == y) by (bit_vector);
}

/// The interval from one name to another leads from the one to the other:
/// `p + (q - p) == q`.
pub proof fn lemma_action_reaches(p: NoteName, q: NoteName)
    ensures
        p.transpose(p.interval_to(q)) == q,
{
    let (x, y) = (p.0, q.0);
    assert(((x + ((y - x) as i8)) as i8) == y) by (bit_vector);
}

/// Moving a name by two intervals in turn is moving it by their sum:
/// `(p + v) + w == p + (v + w)`.
pub proof fn lemma_action_is_compatible(p: NoteName, v: Interval, w: Interval)
    ensures
        p.transpose(v).transpose(w) == p.transpose(v.sum(w)),
{
    let (x, y, z) = (p.0, v.fifths, w.fifths);
    assert(((((x + y) as i8) + z) as i8) == ((x + ((y + z) as i8)) as i8)) by (bit_vector);
}

/// A name made of a letter and an accidental is valid and gives both back.
pub proof fn lemma_round_trip(letter: Letter, accidental: Accidental)
    ensures
        NoteName::spec_new(letter, accidental).is_valid(),
        NoteName::spec_new(letter, accidental).letter() == letter,
        NoteName::spec_new(letter, accidental).accidental() == accidental,
{
}

/// A valid name is the name of its letter with its accidental, so that the
/// valid names and the pairs of a letter and an accidental match one to one.
pub proof fn lemma_name_of_parts(name: NoteName)
    requires
        name.is_valid(),
    ensures
        NoteName::spec_new(name.letter(), name.accidental()) == name,
{
}

/// Every name sounds like itself, and if one name sounds like another, the
/// other sounds like the one.
pub proof fn lemma_enharmonic_names(a: NoteName, b: NoteName)
    ensures
        a.is_enharmonic_with(&a),
        a.is_enharmonic_with(&b) == b.is_enharmonic_with(&a),
{
}

/// Every pitch sounds like itself, and if one pitch sounds like another, the
/// other sounds like the one.
pub proof fn lemma_enharmonic_pitches(a: Pitch, b: Pitch)
    ensures
        a.is_enharmonic_with(&a),
        a.is_enharmonic_with(&b) == b.is_enharmonic_with(&a),
{
}

/// The semitone on which a valid name sounds is seven times its coordinate,
/// up to octaves: each fifth on the line is worth seven semitones.
#[verifier::rlimit(50)]
pub proof fn lemma_pitch_class_of_fifths(name: NoteName)
    requires
        name.is_valid(),
    ensures
        name.pitch_class() == (7 * name.0) % 12,
{
}

/// An interval moves the sound of a name by the semitones it spans, up to
/// octaves.
pub proof fn lemma_action_moves_pitch_class(p: NoteName, v: Interval)
    requires
        p.is_valid(),
        p.transpose(v).is_valid(),
        p.transpose_fits(v),
    ensures
        p.transpose(v).pitch_class() == (p.pitch_class() + v.semitone_count()) % 12,
{
    let q = p.transpose(v);
    lemma_pitch_class_of_fifths(p);
    lemma_pitch_class_of_fifths(q);
    lemma_remainders_add(7 * p.0, v.fifths * 7, v.octaves as int);
}

/// The remainder of a sum by twelve is that of the sum of the remainders,
/// whatever multiple of twelve is added.
proof fn lemma_remainders_add(a: int, b: int, k: int)
    ensures
        (a + b) % 12 == (a % 12 + b % 12 + k * 12) % 12,
{
}

/// Transposing by no semitones gives the pitch back, whatever the pitch.
pub proof fn lemma_zero_offset_keeps_pitch(pitch: Pitch)
    ensures
        spelling(pitch, 0) == Some(pitch),
        ChromaticTransposer::accepts(pitch, 0),
        ChromaticTransposer::transposed(pitch, 0) == pitch,
{
}

/// Every move within the range of the pitch numbers is spelled: the
/// spelling sounds the target, and it has no flat on the way up and no sharp
/// on the way down, unless the pitch that is moved has one.
pub proof fn lemma_move_is_spelled(pitch: Pitch, semitones: i8)
    requires
        semitones != 0,
        in_range(pitch, semitones as int),
    ensures
        ChromaticTransposer::accepts(pitch, semitones),
        spelling(pitch, semitones as int) == Some(
            ChromaticTransposer::transposed(pitch, semitones),
        ),
        ChromaticTransposer::transposed(pitch, semitones).name.is_valid(),
        ChromaticTransposer::transposed(pitch, semitones).absolute() == pitch.absolute()
            + semitones,
        semitones > 0 && !pitch.name.accidental().is_flat() ==> !ChromaticTransposer::transposed(
            pitch,
            semitones,
        ).name.accidental().is_flat(),
        semitones < 0 && !pitch.name.accidental().is_sharp() ==> !ChromaticTransposer::transposed(
            pitch,
            semitones,
        ).name.accidental().is_sharp(),
{
    lemma_spelling_sounds_target(pitch, semitones as int);
}

/// A letter is read back from the capital that stands for it.
pub proof fn lemma_letter_read_back(letter: Letter)
    ensures
        letter.glyph().len() == 1,
        Letter::spec_from_str(letter.glyph()) == Ok::<Letter, ParseFault>(letter),
{
    reveal_strlit("C");
    reveal_strlit("D");
    reveal_strlit("E");
    reveal_strlit("F");
    reveal_strlit("G");
    reveal_strlit("A");
    reveal_strlit("B");
}

/// An accidental is read back from the sign that stands for it.
pub proof fn lemma_accidental_read_back(accidental: Accidental)
    ensures
        accidental.glyph().len() == 1,
        Accidental::spec_from_str(accidental.glyph()) == Ok::<Accidental, ParseFault>(accidental),
{
    reveal_strlit("♭");
    reveal_strlit("♯");
    reveal_strlit("♮");
    reveal_strlit("𝄫");
    reveal_strlit("𝄪");
}

/// A valid note name is read back from the text that writes it.
pub proof fn lemma_name_read_back(name: NoteName)
    requires
        name.is_valid(),
    ensures
        NoteName::spec_from_str(name.text()) == Ok::<NoteName, ParseFault>(name),
{
    let letter = name.letter();
    let accidental = name.accidental();
    lemma_letter_read_back(letter);
    lemma_accidental_read_back(accidental);
    lemma_name_of_parts(name);
    let text = name.text();
    if accidental == Accidental::Natural {
        assert(text.take(1) =~= letter.glyph());
    } else {
        assert(text.take(1) =~= letter.glyph());
        assert(text.skip(1) =~= accidental.glyph());
    }
}

/// The octave of a written pitch begins at the first character that can
/// begin one.
pub proof fn lemma_octave_start(text: Seq<char>, from: int, start: int)
    requires
        0 <= from <= start < text.len(),
        forall|j: int| from <= j < start ==> !begins_octave(#[trigger] text[j]),
        begins_octave(text[start]),
    ensures
        octave_start_from(text, from) == start,
    decreases start - from,
{
    if from < start {
        assert(!begins_octave(text[from]));
        lemma_octave_start(text, from + 1, start);
    }
}

/// A pitch with a valid name is read back from the text that writes it.
pub proof fn lemma_pitch_read_back(pitch: Pitch)
    requires
        pitch.name.is_valid(),
    ensures
        Pitch::spec_from_str(pitch.text()) == Ok::<Pitch, ParseFault>(pitch),
{
    let name = pitch.name.text();
    let octave = decimal(pitch.octave as int);
    let text = pitch.text();
    let start = name.len() as int;
    lemma_name_read_back(pitch.name);
    lemma_letter_read_back(pitch.name.letter());
    lemma_accidental_read_back(pitch.name.accidental());
    lemma_decimal_round_trip(pitch.octave as int);
    if pitch.octave >= 0 {
        lemma_decimal_digits(pitch.octave as nat);
        assert(is_digit(octave[0]));
    }
    assert(octave.len() >= 1 && begins_octave(octave[0]));
    assert(text[start] == octave[0]);
    assert forall|j: int| 0 <= j < start implies !begins_octave(#[trigger] text[j]) by {
        reveal_strlit("C");
        reveal_strlit("D");
        reveal_strlit("E");
        reveal_strlit("F");
        reveal_strlit("G");
        reveal_strlit("A");
        reveal_strlit("B");
        reveal_strlit("♭");
        reveal_strlit("♯");
        reveal_strlit("♮");
        reveal_strlit("𝄫");
        reveal_strlit("𝄪");
        assert(text[j] == name[j]);
    }
    lemma_octave_start(text, 0, start);
    assert(text.take(start) =~= name);
    assert(text.skip(start) =~= octave);
}

/// An interval that has a name is read back from its name. Only the
/// diminished octave is not: its name is read as the interval seven fifths
/// below the perfect octave, an octave up.
pub proof fn lemma_interval_read_back(interval: Interval)
    requires
        interval.is_named(),
        interval != Interval::diminished_octave(),
    ensures
        Interval::parsed(interval.text()) == Some(interval),
{
    reveal_strlit("d");
    reveal_strlit("m");
    reveal_strlit("P");
    reveal_strlit("M");
    reveal_strlit("A");
    let quality = interval.quality_glyph();
    let number = interval.name_number();
    let digits = decimal(number);
    let text = interval.text();
    assert(1 <= number <= 14);
    lemma_decimal_round_trip(number);
    lemma_decimal_digits(number as nat);
    assert(quality.len() == 1);
    assert(text[0] == quality[0]);
    assert(text[1] == digits[0]);
    assert(is_digit(digits[0]));
    assert(text.skip(1) =~= digits);
    assert(run_length(text, text[0], 1) == 0);
    assert(run_length(text, text[0], 0) == 1);
    assert(parse_u8(digits) == Some(number as u8));
}

/// Whether a letter with an accidental, moved by so many semitones from
/// whatever octave it may lie in, is spelled as another letter with an
/// accidental, so many octaves higher.
pub open spec fn spells(
    from: (Letter, Accidental),
    offset: int,
    to: (Letter, Accidental),
    octaves_up: int,
) -> bool {
    forall|octave: i8|
        in_range(#[trigger] pitch_of(from, octave), offset) ==> spelling(
            pitch_of(from, octave),
            offset,
        ) == Some(pitch_of(to, (octave + octaves_up) as i8))
}

/// The pitch of a letter with an accidental in an octave.
pub open spec fn pitch_of(name: (Letter, Accidental), octave: i8) -> Pitch {
    Pitch { name: NoteName::spec_new(name.0, name.1), octave }
}

/// Whether a move and a place of the search go together: the candidate at
/// the place is the best of all, whether the target lies below zero or not,
/// and it is the given letter with the given accidental, so many octaves up.
pub open spec fn leads_to(
    from: (Letter, Accidental),
    offset: int,
    to: (Letter, Accidental),
    octaves_up: int,
    place: int,
) -> bool {
    let letter = from.0.index() as int;
    let sign = from.1.semitone_offset() as int;
    let pc = (natural_semitones(letter) + sign + offset) % 12;
    &&& offset != 0
    &&& -255 <= offset <= 255
    &&& place == chosen_of(letter, sign, offset, pc, false)
    &&& place == chosen_of(letter, sign, offset, pc, true)
    &&& place == 5 * to.0.index() + to.1.semitone_offset() + 2
    &&& natural_semitones(letter) + sign + offset == to.0.base_midi_number()
        + to.1.semitone_offset() + 12 * octaves_up
}

/// A move from an octave is spelled as the candidate at the place that goes
/// with the move.
#[verifier::rlimit(50)]
pub proof fn lemma_spells_from(
    from: (Letter, Accidental),
    offset: int,
    to: (Letter, Accidental),
    octaves_up: int,
    place: int,
    octave: i8,
)
    requires
        leads_to(from, offset, to, octaves_up, place),
        in_range(pitch_of(from, octave), offset),
    ensures
        spelling(pitch_of(from, octave), offset) == Some(
            pitch_of(to, (octave + octaves_up) as i8),
        ),
{
    let source = pitch_of(from, octave);
    let letter = from.0.index() as int;
    let sign = from.1.semitone_offset() as int;
    assert(source.name.letter() == from.0 && source.name.accidental() == from.1);
    lemma_spelled(source, offset);
    lemma_target_pitch_class(source, offset);
    let pc = (source.absolute() + offset) % 12;
    assert(pc == (natural_semitones(letter) + sign + offset) % 12);
    let low = source.absolute() + offset < 0;
    assert(chosen_of(letter, sign, offset, pc, low) == place);
    lemma_candidate_parts(place);
    let found = spelling(source, offset)->0;
    assert(candidate_letter(place) == to.0);
    assert(candidate_accidental(place) == to.1);
    assert(found.name == NoteName::spec_new(to.0, to.1));
    assert(found.name.semitones_from_c() == to.0.base_midi_number() + to.1.semitone_offset());
    assert(source.name.semitones_from_c() == natural_semitones(letter) + sign);
    assert(found.absolute() == source.absolute() + offset);
    assert(found.octave == octave + octaves_up);
}

/// A letter with an accidental, moved by so many semitones, is spelled as
/// the candidate at the place that goes with the move, in every octave.
pub proof fn lemma_spells(
    from: (Letter, Accidental),
    offset: int,
    to: (Letter, Accidental),
    octaves_up: int,
    place: int,
)
    requires
        leads_to(from, offset, to, octaves_up, place),
    ensures
        spells(from, offset, to, octaves_up),
{
    assert forall|octave: i8| in_range(#[trigger] pitch_of(from, octave), offset) implies spelling(
        pitch_of(from, octave),
        offset,
    ) == Some(pitch_of(to, (octave + octaves_up) as i8)) by {
        lemma_spells_from(from, offset, to, octaves_up, place, octave);
    }
}

/// C moved up a semitone is spelled C sharp: on the way up a sharp is
/// preferred.
pub proof fn lemma_c_up_a_semitone()
    ensures
        spells((Letter::C, Accidental::Natural), 1, (Letter::C, Accidental::Sharp), 0),
{
    reveal(chosen_of);
    reveal(fee);
    lemma_spells(
        (Letter::C, Accidental::Natural),
        1,
        (Letter::C, Accidental::Sharp),
        0,
        3,
    );
}

/// B moved up a semitone is spelled C, in the next octave, and never B
/// sharp.
pub proof fn lemma_b_up_a_semitone()
    ensures
        spells((Letter::B, Accidental::Natural), 1, (Letter::C, Accidental::Natural), 1),
{
    reveal(chosen_of);
    reveal(fee);
    lemma_spells(
        (Letter::B, Accidental::Natural),
        1,
        (Letter::C, Accidental::Natural),
        1,
        2,
    );
}

/// C moved down a semitone is spelled B, in the octave below, and never C
/// flat.
pub proof fn lemma_c_down_a_semitone()
    ensures
        spells((Letter::C, Accidental::Natural), -1, (Letter::B, Accidental::Natural), -1),
{
    reveal(chosen_of);
    reveal(fee);
    lemma_spells(
        (Letter::C, Accidental::Natural),
        -1,
        (Letter::B, Accidental::Natural),
        -1,
        32,
    );
}

/// F sharp moved up a semitone is spelled G, and never F double sharp.
pub proof fn lemma_f_sharp_up_a_semitone()
    ensures
        spells((Letter::F, Accidental::Sharp), 1, (Letter::G, Accidental::Natural), 0),
{
    reveal(chosen_of);
    reveal(fee);
    lemma_spells(
        (Letter::F, Accidental::Sharp),
        1,
        (Letter::G, Accidental::Natural),
        0,
        22,
    );
}

/// G moved up twelve semitones is spelled G, in the next octave.
pub proof fn lemma_g_up_an_octave()
    ensures
        spells((Letter::G, Accidental::Natural), 12, (Letter::G, Accidental::Natural), 1),
{
    reveal(chosen_of);
    reveal(fee);
    lemma_spells(
        (Letter::G, Accidental::Natural),
        12,
        (Letter::G, Accidental::Natural),
        1,
        22,
    );
}

/// G moved up seven semitones is spelled D, in the next octave.
pub proof fn lemma_g_up_a_fifth()
    ensures
        spells((Letter::G, Accidental::Natural), 7, (Letter::D, Accidental::Natural), 1),
{
    reveal(chosen_of);
    reveal(fee);
    lemma_spells(
        (Letter::G, Accidental::Natural),
        7,
        (Letter::D, Accidental::Natural),
        1,
        7,
    );
}

/// E flat moved down a semitone is spelled D.
pub proof fn lemma_e_flat_down_a_semitone()
    ensures
        spells((Letter::E, Accidental::Flat), -1, (Letter::D, Accidental::Natural), 0),
{
    reveal(chosen_of);
    reveal(fee);
    lemma_spells(
        (Letter::E, Accidental::Flat),
        -1,
        (Letter::D, Accidental::Natural),
        0,
        7,
    );
}

/// E moved down three semitones is spelled D flat: C sharp would pay less,
/// but a sharp on the way down is passed over and changes nothing.
pub proof fn lemma_e_down_a_minor_third()
    ensures
        spells((Letter::E, Accidental::Natural), -3, (Letter::D, Accidental::Flat), 0),
{
    reveal(chosen_of);
    reveal(fee);
    lemma_spells(
        (Letter::E, Accidental::Natural),
        -3,
        (Letter::D, Accidental::Flat),
        0,
        6,
    );
}

/// D moved down a semitone is spelled D flat.
pub proof fn lemma_d_down_a_semitone()
    ensures
        spells((Letter::D, Accidental::Natural), -1, (Letter::D, Accidental::Flat), 0),
{
    reveal(chosen_of);
    reveal(fee);
    lemma_spells(
        (Letter::D, Accidental::Natural),
        -1,
        (Letter::D, Accidental::Flat),
        0,
        6,
    );
}

/// C moved down two semitones is spelled B flat, in the octave below: on the
/// way down a flat is preferred.
pub proof fn lemma_c_down_a_tone()
    ensures
        spells((Letter::C, Accidental::Natural), -2, (Letter::B, Accidental::Flat), -1),
{
    reveal(chosen_of);
    reveal(fee);
    lemma_spells(
        (Letter::C, Accidental::Natural),
        -2,
        (Letter::B, Accidental::Flat),
        -1,
        31,
    );
}

} // verus!
