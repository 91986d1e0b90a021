//! Note names as coordinates on the line of fifths.
use std::ops::{Add, Sub};
use vstd::prelude::*;
use vstd::string::{StrSliceExecFns, StringExecFns};

use super::{Accidental, Interval, Letter, Pitch};
use crate::arith::{wrap_letters, wrap_octave};
use crate::error::{outcome, ParseError, ParseFault};
use crate::traits::Torsor;

verus! {

/// A note name: a letter with an accidental, held as one coordinate on the
/// line of fifths. C is 0, each fifth up adds one, so that G is 1 and F is
/// -1, and each sharp adds seven.
///
/// The names from F double flat to B double sharp have the coordinates -15
/// to 19; these are the valid names. Arithmetic may lead outside them; such
/// a coordinate still has a letter, and no accidental.
///
/// | -15 | -14 | -13 | -12 | -11 | -10 |  -9 |
/// |-----|-----|-----|-----|-----|-----|-----|
/// |  F𝄫 |  C𝄫 |  G𝄫 |  D𝄫 |  A𝄫 |  E𝄫 |  B𝄫 |
/// |  -8 |  -7 |  -6 |  -5 |  -4 |  -3 |  -2 |
/// |  F♭ |  C♭ |  G♭ |  D♭ |  A♭ |  E♭ |  B♭ |
/// |  -1 |   0 |   1 |   2 |   3 |   4 |   5 |
/// |   F |   C |   G |   D |   A |   E |   B |
/// |   6 |   7 |   8 |   9 |  10 |  11 |  12 |
/// |  F♯ |  C♯ |  G♯ |  D♯ |  A♯ |  E♯ |  B♯ |
/// |  13 |  14 |  15 |  16 |  17 |  18 |  19 |
/// |  F𝄪 |  C𝄪 |  G𝄪 |  D𝄪 |  A𝄪 |  E𝄪 |  B𝄪 |
///
/// Adding an interval moves a name along the line; the difference of two
/// names is the interval between them, within one octave.
#[derive(Debug, Clone, Copy, PartialEq, Eq, Hash, Structural)]
pub struct NoteName(pub i8);

impl NoteName {
    /// Whether the coordinate is that of a letter with one of the five
    /// accidentals.
    pub open spec fn is_valid(&self) -> bool {
        -15 <= self.0 <= 19
    }

    /// The name of a letter with an accidental: the letter's own place on
    /// the line, and seven fifths for each semitone of the accidental.
    pub open spec fn spec_new(letter: Letter, accidental: Accidental) -> NoteName {
        NoteName((letter.natural_fifths() + 7 * accidental.semitone_offset()) as i8)
    }

    /// The letter of the name. The letters repeat along the line every seven
    /// fifths, in the order F, C, G, D, A, E, B.
    pub open spec fn spec_letter(&self) -> Letter {
        let place = (self.0 + 15) % 7;
        if place == 0 {
            Letter::F
        } else if place == 1 {
            Letter::C
        } else if place == 2 {
            Letter::G
        } else if place == 3 {
            Letter::D
        } else if place == 4 {
            Letter::A
        } else if place == 5 {
            Letter::E
        } else {
            Letter::B
        }
    }

    /// The accidental of a valid name, by the band of seven in which its
    /// coordinate lies.
    pub open spec fn spec_accidental(&self) -> Accidental {
        if self.0 < -8 {
            Accidental::DoubleFlat
        } else if self.0 < -1 {
            Accidental::Flat
        } else if self.0 < 6 {
            Accidental::Natural
        } else if self.0 < 13 {
            Accidental::Sharp
        } else {
            Accidental::DoubleSharp
        }
    }

    /// Semitones from C to the note, within the octave that starts on C:
    /// those of the letter, changed by the accidental. They go from -2 for C
    /// double flat to 13 for B double sharp.
    pub open spec fn semitones_from_c(&self) -> int {
        self.spec_letter().base_midi_number() + self.spec_accidental().semitone_offset()
    }

    /// The semitone of the octave on which the note sounds, from 0 for C to
    /// 11 for B.
    pub open spec fn pitch_class(&self) -> int {
        (self.semitones_from_c() + 12) % 12
    }

    /// The name of a letter with an accidental.
    pub fn new(letter: Letter, accidental: Accidental) -> (r: NoteName)
        ensures
            r == Self::spec_new(letter, accidental),
            r.is_valid(),
            r.letter() == letter,
            r.accidental() == accidental,
    {
        match (letter, accidental) {
            (Letter::F, Accidental::DoubleFlat) => NoteName(-15),
            (Letter::C, Accidental::DoubleFlat) => NoteName(-14),
            (Letter::G, Accidental::DoubleFlat) => NoteName(-13),
            (Letter::D, Accidental::DoubleFlat) => NoteName(-12),
            (Letter::A, Accidental::DoubleFlat) => NoteName(-11),
            (Letter::E, Accidental::DoubleFlat) => NoteName(-10),
            (Letter::B, Accidental::DoubleFlat) => NoteName(-9),
            (Letter::F, Accidental::Flat) => NoteName(-8),
            (Letter::C, Accidental::Flat) => NoteName(-7),
            (Letter::G, Accidental::Flat) => NoteName(-6),
            (Letter::D, Accidental::Flat) => NoteName(-5),
            (Letter::A, Accidental::Flat) => NoteName(-4),
            (Letter::E, Accidental::Flat) => NoteName(-3),
            (Letter::B, Accidental::Flat) => NoteName(-2),
            (Letter::F, Accidental::Natural) => NoteName(-1),
            (Letter::C, Accidental::Natural) => NoteName(0),
            (Letter::G, Accidental::Natural) => NoteName(1),
            (Letter::D, Accidental::Natural) => NoteName(2),
            (Letter::A, Accidental::Natural) => NoteName(3),
            (Letter::E, Accidental::Natural) => NoteName(4),
            (Letter::B, Accidental::Natural) => NoteName(5),
            (Letter::F, Accidental::Sharp) => NoteName(6),
            (Letter::C, Accidental::Sharp) => NoteName(7),
            (Letter::G, Accidental::Sharp) => NoteName(8),
            (Letter::D, Accidental::Sharp) => NoteName(9),
            (Letter::A, Accidental::Sharp) => NoteName(10),
            (Letter::E, Accidental::Sharp) => NoteName(11),
            (Letter::B, Accidental::Sharp) => NoteName(12),
            (Letter::F, Accidental::DoubleSharp) => NoteName(13),
            (Letter::C, Accidental::DoubleSharp) => NoteName(14),
            (Letter::G, Accidental::DoubleSharp) => NoteName(15),
            (Letter::D, Accidental::DoubleSharp) => NoteName(16),
            (Letter::A, Accidental::DoubleSharp) => NoteName(17),
            (Letter::E, Accidental::DoubleSharp) => NoteName(18),
            (Letter::B, Accidental::DoubleSharp) => NoteName(19),
        }
    }

    /// The name at a coordinate of the line of fifths.
    pub fn from_fifths(fifths: i8) -> (r: NoteName)
        ensures
            r == NoteName(fifths),
    {
        NoteName(fifths)
    }

    /// The coordinate of the name on the line of fifths.
    #[verifier::allow_in_spec]
    pub fn fifths(&self) -> i8
        returns
            self.0,
    {
        self.0
    }

    /// The letter of the name.
    #[verifier::when_used_as_spec(spec_letter)]
    pub fn letter(&self) -> (r: Letter)
        ensures
            r == self.spec_letter(),
    {
        let place: i32 = wrap_letters(self.0 as i32 + 15);
        if place == 0 {
            Letter::F
        } else if place == 1 {
            Letter::C
        } else if place == 2 {
            Letter::G
        } else if place == 3 {
            Letter::D
        } else if place == 4 {
            Letter::A
        } else if place == 5 {
            Letter::E
        } else {
            Letter::B
        }
    }

    /// The accidental of a valid name.
    #[verifier::when_used_as_spec(spec_accidental)]
    pub fn accidental(&self) -> (r: Accidental)
        requires
            self.is_valid(),
        ensures
            r == self.spec_accidental(),
    {
        if self.0 < -8 {
            Accidental::DoubleFlat
        } else if self.0 < -1 {
            Accidental::Flat
        } else if self.0 < 6 {
            Accidental::Natural
        } else if self.0 < 13 {
            Accidental::Sharp
        } else {
            Accidental::DoubleSharp
        }
    }

    /// Semitones from C to the note, within the octave that starts on C.
    pub fn base_midi_number(&self) -> (r: i8)
        requires
            self.is_valid(),
        ensures
            r == self.semitones_from_c(),
            -2 <= r <= 13,
    {
        self.letter().base_midi_number() + self.accidental().semitone_offset()
    }

    /// Whether two names sound the same note: their semitones from C agree
    /// up to octaves. This holds of more pairs than equality does.
    pub open spec fn spec_is_enharmonic_with(&self, other: &NoteName) -> bool {
        self.pitch_class() == other.pitch_class()
    }

    /// Whether two names sound the same note, as C sharp and D flat do.
    #[verifier::when_used_as_spec(spec_is_enharmonic_with)]
    pub fn is_enharmonic_with(&self, other: &NoteName) -> (r: bool)
        requires
            self.is_valid(),
            other.is_valid(),
        ensures
            r == self.spec_is_enharmonic_with(other),
    {
        wrap_octave(self.base_midi_number() as i32 + 12) == wrap_octave(
            other.base_midi_number() as i32 + 12,
        )
    }

    /// The letter so many letter steps above the letter of this name, or
    /// below it for a negative count.
    pub fn get_letter_at_interval(&self, steps: i8) -> (r: Letter)
        ensures
            r.index() == (self.letter().index() + steps) % 7,
    {
        let place: i32 = wrap_letters(self.letter().index() as i32 + steps as i32);
        Letter::from_index(place as i8)
    }

    /// Whether an accidental brings the natural note of a letter to a given
    /// semitone of the octave, from 0 to 11: the two lie at most two
    /// semitones apart, be it across the end of the octave.
    pub open spec fn reaches(letter: Letter, sound: int) -> bool {
        let apart = sound - letter.base_midi_number();
        apart <= -10 || (-2 <= apart <= 2) || apart >= 10
    }

    /// The name with the given letter that sounds so many semitones above
    /// this note, octaves apart. There is such a name only where the letter's
    /// natural note is at most two semitones from that sound.
    #[verifier::rlimit(50)]
    pub fn note_with_interval_to(&self, target_letter: Letter, semitones: i8) -> (r: NoteName)
        requires
            self.is_valid(),
            Self::reaches(target_letter, (self.semitones_from_c() + semitones) % 12),
        ensures
            r.is_valid(),
            r.letter() == target_letter,
            r.pitch_class() == (self.semitones_from_c() + semitones) % 12,
    {
        let sound: i32 = wrap_octave(self.base_midi_number() as i32 + semitones as i32);
        let apart: i32 = sound - target_letter.base_midi_number() as i32;
        let adjustment: i32 = if apart >= 10 {
            apart - 12
        } else if apart <= -10 {
            apart + 12
        } else {
            apart
        };
        let accidental = Accidental::from_semitone_offset(adjustment as i8);
        let r = NoteName::new(target_letter, accidental);
        proof {
            let written = target_letter.base_midi_number() + adjustment;
            assert(r.semitones_from_c() == written);
            assert(written == sound || written == sound - 12 || written == sound + 12);
            assert((written + 12) % 12 == sound);
        }
        r
    }

    /// The name reached from this one by an interval: the interval's fifths
    /// are added to the coordinate, wrapped to eight bits; its octaves change
    /// nothing.
    pub open spec fn spec_transpose(self, interval: Interval) -> NoteName {
        NoteName((self.0 + interval.fifths) as i8)
    }

    /// Whether the name reached by an interval can be held: its coordinate
    /// does not leave the range of its type.
    pub open spec fn transpose_fits(self, interval: Interval) -> bool {
        i8::MIN <= self.0 + interval.fifths <= i8::MAX
    }

    /// The interval that leads from this name to another, within one octave:
    /// the difference of the coordinates, wrapped to eight bits.
    pub open spec fn spec_interval_to(self, other: NoteName) -> Interval {
        Interval { fifths: (other.0 - self.0) as i8, octaves: 0 }
    }

    /// Whether the interval to another name can be held.
    pub open spec fn interval_to_fits(self, other: NoteName) -> bool {
        i8::MIN <= other.0 - self.0 <= i8::MAX
    }

    /// The name reached from this one by an interval.
    pub fn transpose_by_interval(&self, interval: Interval) -> (r: NoteName)
        requires
            self.transpose_fits(interval),
        ensures
            r == self.spec_transpose(interval),
    {
        *self + interval
    }

    /// The pitch of this name in an octave.
    pub fn to_pitch(&self, octave: i8) -> (r: Pitch)
        requires
            self.is_valid(),
        ensures
            r == (Pitch { name: *self, octave }),
    {
        Pitch::new(self.letter(), self.accidental(), octave)
    }

    /// The name reached from this one by an interval.
    #[verifier::when_used_as_spec(spec_transpose)]
    pub fn transpose(self, interval: Interval) -> (r: NoteName)
        requires
            self.transpose_fits(interval),
        ensures
            r == self.spec_transpose(interval),
    {
        self.act(interval)
    }

    /// The interval that leads from this name to another, within one octave.
    #[verifier::when_used_as_spec(spec_interval_to)]
    pub fn interval_to(self, other: NoteName) -> (r: Interval)
        requires
            self.interval_to_fits(other),
        ensures
            r == self.spec_interval_to(other),
    {
        other.difference(&self)
    }
}

impl NoteName {
    /// The name written out: the letter, and the sign of the accidental
    /// unless the note is natural.
    pub open spec fn text(&self) -> Seq<char> {
        if self.spec_accidental() == Accidental::Natural {
            self.spec_letter().glyph()
        } else {
            self.spec_letter().glyph() + self.spec_accidental().glyph()
        }
    }

    /// The name that a text writes: a letter, then nothing or an accidental.
    /// Where the text begins with no letter, its first character is the
    /// fault, or the text itself where it is empty. Where the letter is
    /// followed by something that is no accidental, that is the fault.
    pub open spec fn spec_from_str(text: Seq<char>) -> Result<NoteName, ParseFault> {
        if text.len() == 0 {
            Err(ParseFault::InvalidNoteName(text))
        } else {
            match Letter::spec_from_str(text.take(1)) {
                Err(fault) => Err(fault),
                Ok(letter) => if text.len() == 1 {
                    Ok(Self::spec_new(letter, Accidental::Natural))
                } else {
                    match Accidental::spec_from_str(text.skip(1)) {
                        Err(fault) => Err(fault),
                        Ok(accidental) => Ok(Self::spec_new(letter, accidental)),
                    }
                },
            }
        }
    }

    /// Writes a valid name out.
    pub fn to_string(&self) -> (r: String)
        requires
            self.is_valid(),
        ensures
            r@ == self.text(),
    {
        let accidental = self.accidental();
        if accidental == Accidental::Natural {
            self.letter().to_string()
        } else {
            self.letter().to_string().concat(accidental.symbol())
        }
    }

    /// Reads a name: a letter from A to G in either case, then nothing or
    /// an accidental. A name that is read is valid.
    pub fn from_str(s: &str) -> (r: Result<NoteName, ParseError>)
        ensures
            outcome(r) == Self::spec_from_str(s@),
            r matches Ok(name) ==> name.is_valid(),
    {
        let length = s.unicode_len();
        if length == 0 {
            return Err(ParseError::InvalidNoteName(String::from_str(s)));
        }
        let first = s.substring_char(0, 1);
        assert(first@ =~= s@.take(1));
        let letter = match Letter::from_str(first) {
            Ok(letter) => letter,
            Err(e) => {
                return Err(e);
            },
        };
        if length == 1 {
            return Ok(NoteName::new(letter, Accidental::Natural));
        }
        let rest = s.substring_char(1, length);
        assert(rest@ =~= s@.skip(1));
        match Accidental::from_str(rest) {
            Ok(accidental) => Ok(NoteName::new(letter, accidental)),
            Err(e) => Err(e),
        }
    }
}

impl Add<Interval> for NoteName {
    type Output = NoteName;

    /// The name reached by an interval.
    fn add(self, interval: Interval) -> (r: NoteName) {
        NoteName(self.0 + interval.fifths)
    }
}

impl vstd::std_specs::ops::AddSpecImpl<Interval> for NoteName {
    open spec fn obeys_add_spec() -> bool {
        true
    }

    open spec fn add_req(self, interval: Interval) -> bool {
        self.transpose_fits(interval)
    }

    open spec fn add_spec(self, interval: Interval) -> NoteName {
        self.spec_transpose(interval)
    }
}

impl Sub<NoteName> for NoteName {
    type Output = Interval;

    /// The interval from another name up to this one, within one octave.
    fn sub(self, other: NoteName) -> (r: Interval) {
        Interval::with_fifths(self.0 - other.0)
    }
}

impl vstd::std_specs::ops::SubSpecImpl<NoteName> for NoteName {
    open spec fn obeys_sub_spec() -> bool {
        true
    }

    open spec fn sub_req(self, other: NoteName) -> bool {
        other.interval_to_fits(self)
    }

    open spec fn sub_spec(self, other: NoteName) -> Interval {
        other.spec_interval_to(self)
    }
}

impl Torsor<Interval> for NoteName {
    open spec fn act_req(&self, g: Interval) -> bool {
        self.transpose_fits(g)
    }

    open spec fn act_spec(&self, g: Interval) -> NoteName {
        self.spec_transpose(g)
    }

    open spec fn difference_req(&self, other: &NoteName) -> bool {
        other.interval_to_fits(*self)
    }

    open spec fn difference_spec(&self, other: &NoteName) -> Interval {
        other.spec_interval_to(*self)
    }

    fn act(&self, g: Interval) -> (r: NoteName) {
        *self + g
    }

    fn difference(&self, other: &NoteName) -> (r: Interval) {
        *self - *other
    }
}

impl std::str::FromStr for NoteName {
    type Err = ParseError;

    /// Reads a note name, as [`NoteName::from_str`] does.
    fn from_str(s: &str) -> (r: Result<NoteName, ParseError>)
        ensures
            outcome(r) == Self::spec_from_str(s@),
            r matches Ok(name) ==> name.is_valid(),
    {
        NoteName::from_str(s)
    }
}

} // verus!
