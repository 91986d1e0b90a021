//! The five accidentals, from double flat to double sharp.
use vstd::prelude::*;
use vstd::string::{StrSliceExecFns, StringExecFns};

use crate::error::{outcome, ParseError, ParseFault};
use crate::symbols::{DOUBLE_FLAT, DOUBLE_SHARP, FLAT, NATURAL, SHARP};

verus! {

/// An alteration of a natural note by up to two semitones either way.
#[derive(Debug, Clone, Copy, PartialEq, Eq, Hash, Structural)]
#[allow(missing_docs)]
pub enum Accidental {
    DoubleFlat,
    Flat,
    Natural,
    Sharp,
    DoubleSharp,
}

impl Accidental {
    /// The accidental that a text of one character names.
    pub open spec fn spec_from_single(c: char) -> Option<Accidental> {
        if c == 'b' || c == '♭' {
            Some(Accidental::Flat)
        } else if c == '#' || c == '♯' {
            Some(Accidental::Sharp)
        } else if c == 'n' || c == '♮' {
            Some(Accidental::Natural)
        } else if c == '𝄫' {
            Some(Accidental::DoubleFlat)
        } else if c == '𝄪' {
            Some(Accidental::DoubleSharp)
        } else {
            None
        }
    }

    /// The accidental that a text of two characters names: a doubled flat or
    /// a doubled sharp, both signs written alike.
    pub open spec fn spec_from_pair(first: char, second: char) -> Option<Accidental> {
        if first == second && (first == 'b' || first == '♭') {
            Some(Accidental::DoubleFlat)
        } else if first == second && (first == '#' || first == '♯') {
            Some(Accidental::DoubleSharp)
        } else {
            None
        }
    }

    /// The accidental that a text names, if it names one.
    pub open spec fn spec_token(text: Seq<char>) -> Option<Accidental> {
        if text.len() == 1 {
            Self::spec_from_single(text[0])
        } else if text.len() == 2 {
            Self::spec_from_pair(text[0], text[1])
        } else {
            None
        }
    }

    /// The accidental read from a text. A text that names none is itself the
    /// fault.
    pub open spec fn spec_from_str(text: Seq<char>) -> Result<Accidental, ParseFault> {
        match Self::spec_token(text) {
            Some(accidental) => Ok(accidental),
            None => Err(ParseFault::InvalidAccidental(text)),
        }
    }

    /// The sign that stands for the accidental.
    pub open spec fn glyph(self) -> Seq<char> {
        match self {
            Accidental::DoubleFlat => DOUBLE_FLAT@,
            Accidental::Flat => FLAT@,
            Accidental::Natural => NATURAL@,
            Accidental::Sharp => SHARP@,
            Accidental::DoubleSharp => DOUBLE_SHARP@,
        }
    }

    /// All five accidentals, from the flattest to the sharpest.
    pub open spec fn spec_all() -> Seq<Accidental> {
        seq![
            Accidental::DoubleFlat,
            Accidental::Flat,
            Accidental::Natural,
            Accidental::Sharp,
            Accidental::DoubleSharp,
        ]
    }

    /// All five accidentals, from the flattest to the sharpest.
    pub fn all() -> (r: [Accidental; 5])
        ensures
            r@ == Self::spec_all(),
    {
        [
            Accidental::DoubleFlat,
            Accidental::Flat,
            Accidental::Natural,
            Accidental::Sharp,
            Accidental::DoubleSharp,
        ]
    }

    /// The number of semitones by which the accidental raises a note.
    #[verifier::allow_in_spec]
    pub fn semitone_offset(&self) -> i8
        returns
            (match self {
                Accidental::DoubleFlat => -2i8,
                Accidental::Flat => -1i8,
                Accidental::Natural => 0i8,
                Accidental::Sharp => 1i8,
                Accidental::DoubleSharp => 2i8,
            }),
    {
        match self {
            Accidental::DoubleFlat => -2,
            Accidental::Flat => -1,
            Accidental::Natural => 0,
            Accidental::Sharp => 1,
            Accidental::DoubleSharp => 2,
        }
    }

    /// The accidental that raises a note by the given number of semitones,
    /// from -2 to 2.
    pub open spec fn spec_from_semitone_offset(offset: i8) -> Accidental {
        if offset == -2 {
            Accidental::DoubleFlat
        } else if offset == -1 {
            Accidental::Flat
        } else if offset == 0 {
            Accidental::Natural
        } else if offset == 1 {
            Accidental::Sharp
        } else {
            Accidental::DoubleSharp
        }
    }

    /// The accidental that raises a note by the given number of semitones.
    #[verifier::when_used_as_spec(spec_from_semitone_offset)]
    pub fn from_semitone_offset(offset: i8) -> (r: Accidental)
        requires
            -2 <= offset <= 2,
        ensures
            r == Self::spec_from_semitone_offset(offset),
            r.semitone_offset() == offset,
    {
        if offset == -2 {
            Accidental::DoubleFlat
        } else if offset == -1 {
            Accidental::Flat
        } else if offset == 0 {
            Accidental::Natural
        } else if offset == 1 {
            Accidental::Sharp
        } else {
            Accidental::DoubleSharp
        }
    }

    /// What a spelling pays for carrying this accidental: nothing for a
    /// natural, 1 for a single sign, 3 for a double one.
    #[verifier::allow_in_spec]
    pub fn penalty(self) -> i32
        returns
            (match self {
                Accidental::Natural => 0i32,
                Accidental::Sharp | Accidental::Flat => 1i32,
                Accidental::DoubleSharp | Accidental::DoubleFlat => 3i32,
            }),
    {
        match self {
            Accidental::Natural => 0,
            Accidental::Sharp | Accidental::Flat => 1,
            Accidental::DoubleSharp | Accidental::DoubleFlat => 3,
        }
    }

    /// Whether the accidental raises the note.
    #[verifier::allow_in_spec]
    pub fn is_sharp(self) -> bool
        returns
            (self == Accidental::Sharp || self == Accidental::DoubleSharp),
    {
        match self {
            Accidental::Sharp | Accidental::DoubleSharp => true,
            _ => false,
        }
    }

    /// Whether the accidental lowers the note.
    #[verifier::allow_in_spec]
    pub fn is_flat(self) -> bool
        returns
            (self == Accidental::Flat || self == Accidental::DoubleFlat),
    {
        match self {
            Accidental::Flat | Accidental::DoubleFlat => true,
            _ => false,
        }
    }

    /// The sign that stands for the accidental.
    pub fn symbol(self) -> (r: &'static str)
        ensures
            r@ == self.glyph(),
    {
        match self {
            Accidental::DoubleFlat => DOUBLE_FLAT,
            Accidental::Flat => FLAT,
            Accidental::Natural => NATURAL,
            Accidental::Sharp => SHARP,
            Accidental::DoubleSharp => DOUBLE_SHARP,
        }
    }

    /// Writes the accidental out as its sign.
    pub fn to_string(&self) -> (r: String)
        ensures
            r@ == self.glyph(),
    {
        String::from_str(self.symbol())
    }

    /// Reads an accidental: `b`, `#` or `n`, their musical signs, a doubled
    /// flat or sharp, or the single sign of a double accidental. Any other
    /// text is handed back in the error.
    pub fn from_str(s: &str) -> (r: Result<Accidental, ParseError>)
        ensures
            outcome(r) == Self::spec_from_str(s@),
    {
        let n = s.unicode_len();
        if n == 1 {
            let c = s.get_char(0);
            if c == 'b' || c == '♭' {
                return Ok(Accidental::Flat);
            } else if c == '#' || c == '♯' {
                return Ok(Accidental::Sharp);
            } else if c == 'n' || c == '♮' {
                return Ok(Accidental::Natural);
            } else if c == '𝄫' {
                return Ok(Accidental::DoubleFlat);
            } else if c == '𝄪' {
                return Ok(Accidental::DoubleSharp);
            }
        } else if n == 2 {
            let first = s.get_char(0);
            let second = s.get_char(1);
            if first == second && (first == 'b' || first == '♭') {
                return Ok(Accidental::DoubleFlat);
            } else if first == second && (first == '#' || first == '♯') {
                return Ok(Accidental::DoubleSharp);
            }
        }
        Err(ParseError::InvalidAccidental(String::from_str(s)))
    }
}

impl std::str::FromStr for Accidental {
    type Err = ParseError;

    /// Reads an accidental, as [`Accidental::from_str`] does.
    fn from_str(s: &str) -> (r: Result<Accidental, ParseError>)
        ensures
            outcome(r) == Self::spec_from_str(s@),
    {
        Accidental::from_str(s)
    }
}

} // verus!
