//! Pitches: a note name in an octave.
use std::ops::Add;
use vstd::prelude::*;
use vstd::string::{StrSliceExecFns, StringExecFns};

use super::{Accidental, Letter, NoteName};
use crate::error::{outcome, ParseError, ParseFault};
use crate::text::{char_is_digit, chars_of, decimal, integer_to_string, is_digit, parse_i8, read_i8};
use crate::transposition::chromatic::keeps_direction;
use crate::transposition::{ChromaticTransposer, Transposer};

verus! {

/// A note name in an octave. Octave -2 is the lowest that counts: its C has
/// the absolute value 0.
#[derive(Debug, Clone, Copy, PartialEq, Eq, Hash, Structural)]
pub struct Pitch {
    /// The letter and the accidental.
    pub name: NoteName,
    /// The octave, each octave running from its C up to its B.
    pub octave: i8,
}

impl Pitch {
    /// The semitones from the C of octave -2 up to the pitch: those of the
    /// name within its octave, and twelve for each octave.
    pub open spec fn absolute(&self) -> int {
        self.name.semitones_from_c() + (self.octave + 2) * 12
    }

    /// The pitch with a letter, an accidental and an octave.
    pub fn new(letter: Letter, accidental: Accidental, octave: i8) -> (r: Pitch)
        ensures
            r == (Pitch { name: NoteName::spec_new(letter, accidental), octave }),
            r.name.is_valid(),
            r.name.letter() == letter,
            r.name.accidental() == accidental,
    {
        Pitch { name: NoteName::new(letter, accidental), octave }
    }

    /// The semitones from the C of octave -2 up to the pitch, whatever the
    /// octave.
    pub fn absolute_value(&self) -> (r: i32)
        requires
            self.name.is_valid(),
        ensures
            r == self.absolute(),
    {
        self.name.base_midi_number() as i32 + (self.octave as i32 + 2) * 12
    }

    /// The number of the pitch, counted in semitones from the C of octave -2,
    /// for a pitch whose number fits the result.
    pub fn midi_number(&self) -> (r: i8)
        requires
            self.name.is_valid(),
            i8::MIN <= self.absolute() <= i8::MAX,
        ensures
            r == self.absolute(),
    {
        self.absolute_value() as i8
    }

    /// Whether two pitches sound alike: they lie equally many semitones
    /// above the C of octave -2.
    pub open spec fn spec_is_enharmonic_with(&self, other: &Pitch) -> bool {
        self.absolute() == other.absolute()
    }

    /// Whether two pitches sound alike, as C4 and the B sharp below it do.
    #[verifier::when_used_as_spec(spec_is_enharmonic_with)]
    pub fn is_enharmonic_with(&self, other: &Pitch) -> (r: bool)
        requires
            self.name.is_valid(),
            other.name.is_valid(),
        ensures
            r == self.spec_is_enharmonic_with(other),
    {
        self.absolute_value() == other.absolute_value()
    }

    /// Moves the pitch by so many semitones and spells the result as
    /// [`ChromaticTransposer`] does: it sounds the target, and has no flat
    /// on the way up and no sharp on the way down unless the pitch has one.
    pub fn transpose(&self, semitone_offset: i8) -> (r: Pitch)
        requires
            ChromaticTransposer::accepts(*self, semitone_offset),
        ensures
            r == ChromaticTransposer::transposed(*self, semitone_offset),
            semitone_offset == 0 ==> r == *self,
            semitone_offset != 0 ==> r.name.is_valid() && r.absolute() == self.absolute()
                + semitone_offset && keeps_direction(
                self.name.accidental(),
                semitone_offset as int,
                r.name.accidental(),
            ),
    {
        ChromaticTransposer::transpose(*self, semitone_offset)
    }

    /// Moves the pitch by so many semitones as a chosen transposer does.
    pub fn transpose_with<T: Transposer>(&self, interval: i8) -> (r: Pitch)
        requires
            T::accepts(*self, interval),
        ensures
            r == T::transposed(*self, interval),
    {
        T::transpose(*self, interval)
    }

    /// Whether the pitch is spelled B sharp, E sharp, C flat or F flat: names
    /// that a natural note a semitone away makes needless.
    #[verifier::when_used_as_spec(spec_is_suspicious_spelling)]
    pub fn is_suspicious_spelling(&self) -> (r: bool)
        requires
            self.name.is_valid(),
        ensures
            r == self.spec_is_suspicious_spelling(),
    {
        let letter = self.name.letter();
        let accidental = self.name.accidental();
        (letter == Letter::B && accidental == Accidental::Sharp) || (letter == Letter::E
            && accidental == Accidental::Sharp) || (letter == Letter::C && accidental
            == Accidental::Flat) || (letter == Letter::F && accidental == Accidental::Flat)
    }

    /// Whether the pitch is spelled B sharp, E sharp, C flat or F flat.
    pub open spec fn spec_is_suspicious_spelling(&self) -> bool {
        self.name == NoteName::spec_new(Letter::B, Accidental::Sharp) || self.name
            == NoteName::spec_new(Letter::E, Accidental::Sharp) || self.name == NoteName::spec_new(
            Letter::C,
            Accidental::Flat,
        ) || self.name == NoteName::spec_new(Letter::F, Accidental::Flat)
    }
}

/// Whether a character can begin the octave of a written pitch: a digit or
/// a minus sign.
pub open spec fn begins_octave(c: char) -> bool {
    is_digit(c) || c == '-'
}

/// The place, from `from` on, of the first character that can begin an
/// octave, or the length of the text where there is none.
pub open spec fn octave_start_from(text: Seq<char>, from: int) -> int
    decreases text.len() - from,
{
    if from >= text.len() {
        text.len() as int
    } else if begins_octave(text[from]) {
        from
    } else {
        octave_start_from(text, from + 1)
    }
}

impl Pitch {
    /// The pitch written out: the name, then the octave in decimal.
    pub open spec fn text(&self) -> Seq<char> {
        self.name.text() + decimal(self.octave as int)
    }

    /// The pitch that a text writes: a note name, then an octave from the
    /// first digit or minus sign on. Where the name or the octave is
    /// missing, or the octave is no number from -128 to 127, the whole text
    /// is at fault; else where the name is wrong, the fault is that of the
    /// name.
    pub open spec fn spec_from_str(text: Seq<char>) -> Result<Pitch, ParseFault> {
        let start = octave_start_from(text, 0);
        if start == 0 || start == text.len() {
            Err(ParseFault::InvalidPitch(text))
        } else {
            match parse_i8(text.skip(start)) {
                None => Err(ParseFault::InvalidPitch(text)),
                Some(octave) => match NoteName::spec_from_str(text.take(start)) {
                    Err(fault) => Err(fault),
                    Ok(name) => Ok(Pitch { name, octave }),
                },
            }
        }
    }

    /// Writes out a pitch with a valid name.
    pub fn to_string(&self) -> (r: String)
        requires
            self.name.is_valid(),
        ensures
            r@ == self.text(),
    {
        let octave = integer_to_string(self.octave as i32);
        self.name.to_string().concat(octave.as_str())
    }

    /// Reads a pitch: a note name, then its octave, as in `C4`, `F#-1` or
    /// `Bbb5`. A pitch that is read has a valid name.
    pub fn from_str(s: &str) -> (r: Result<Pitch, ParseError>)
        ensures
            outcome(r) == Self::spec_from_str(s@),
            r matches Ok(pitch) ==> pitch.name.is_valid(),
    {
        let chars = chars_of(s);
        let length = chars.len();
        let mut start: usize = 0;
        while start < length && !(char_is_digit(chars[start]) || chars[start] == '-')
            invariant
                start <= length,
                length == chars@.len(),
                octave_start_from(chars@, 0) == octave_start_from(chars@, start as int),
            decreases length - start,
        {
            start = start + 1;
        }
        if start == 0 || start == length {
            return Err(ParseError::InvalidPitch(String::from_str(s)));
        }
        assert(chars@.subrange(start as int, length as int) =~= s@.skip(start as int));
        let octave = match read_i8(chars.as_slice(), start, length) {
            Some(octave) => octave,
            None => {
                return Err(ParseError::InvalidPitch(String::from_str(s)));
            },
        };
        let note_part = s.substring_char(0, start);
        assert(note_part@ =~= s@.take(start as int));
        match NoteName::from_str(note_part) {
            Ok(name) => Ok(Pitch { name, octave }),
            Err(e) => Err(e),
        }
    }
}

impl Pitch {
    /// Moves the pitch by so many semitones where it stands, spelled as
    /// [`ChromaticTransposer`] does.
    pub fn add_assign(&mut self, semitones: i8)
        requires
            ChromaticTransposer::accepts(*old(self), semitones),
        ensures
            *final(self) == ChromaticTransposer::transposed(*old(self), semitones),
    {
        *self = self.transpose(semitones);
    }
}

impl Add<i8> for Pitch {
    type Output = Pitch;

    /// The pitch so many semitones away, spelled as
    /// [`ChromaticTransposer`] does.
    fn add(self, semitones: i8) -> (r: Pitch) {
        self.transpose(semitones)
    }
}

impl vstd::std_specs::ops::AddSpecImpl<i8> for Pitch {
    open spec fn obeys_add_spec() -> bool {
        true
    }

    open spec fn add_req(self, semitones: i8) -> bool {
        ChromaticTransposer::accepts(self, semitones)
    }

    open spec fn add_spec(self, semitones: i8) -> Pitch {
        ChromaticTransposer::transposed(self, semitones)
    }
}

impl std::str::FromStr for Pitch {
    type Err = ParseError;

    /// Reads a pitch, as [`Pitch::from_str`] does.
    fn from_str(s: &str) -> (r: Result<Pitch, ParseError>)
        ensures
            outcome(r) == Self::spec_from_str(s@),
            r matches Ok(pitch) ==> pitch.name.is_valid(),
    {
        Pitch::from_str(s)
    }
}

} // verus!
