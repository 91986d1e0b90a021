//! The seven letters that name the natural notes.
use vstd::prelude::*;
use vstd::string::{StrSliceExecFns, StringExecFns};

use crate::error::{outcome, ParseError, ParseFault};

verus! {

/// A letter name, listed in the order of the scale that starts on C.
#[derive(Debug, Clone, Copy, PartialEq, Eq, Hash, Structural)]
#[allow(missing_docs)]
pub enum Letter {
    C,
    D,
    E,
    F,
    G,
    A,
    B,
}

impl Letter {
    /// The letter read from a character, in either case.
    pub open spec fn spec_from_char(c: char) -> Option<Letter> {
        if c == 'C' || c == 'c' {
            Some(Letter::C)
        } else if c == 'D' || c == 'd' {
            Some(Letter::D)
        } else if c == 'E' || c == 'e' {
            Some(Letter::E)
        } else if c == 'F' || c == 'f' {
            Some(Letter::F)
        } else if c == 'G' || c == 'g' {
            Some(Letter::G)
        } else if c == 'A' || c == 'a' {
            Some(Letter::A)
        } else if c == 'B' || c == 'b' {
            Some(Letter::B)
        } else {
            None
        }
    }

    /// The letter read from a text: one character that names a letter. Any
    /// other text is itself the fault.
    pub open spec fn spec_from_str(text: Seq<char>) -> Result<Letter, ParseFault> {
        if text.len() == 1 && Self::spec_from_char(text[0]) is Some {
            Ok(Self::spec_from_char(text[0])->0)
        } else {
            Err(ParseFault::InvalidNoteName(text))
        }
    }

    /// The capital that stands for the letter.
    pub open spec fn glyph(self) -> Seq<char> {
        match self {
            Letter::C => "C"@,
            Letter::D => "D"@,
            Letter::E => "E"@,
            Letter::F => "F"@,
            Letter::G => "G"@,
            Letter::A => "A"@,
            Letter::B => "B"@,
        }
    }

    /// Where the natural note of the letter lies on the line of fifths,
    /// counted from C: F, C, G, D, A, E, B are -1 to 5.
    #[verifier::allow_in_spec]
    pub fn natural_fifths(self) -> i8
        returns
            (match self {
                Letter::F => -1i8,
                Letter::C => 0i8,
                Letter::G => 1i8,
                Letter::D => 2i8,
                Letter::A => 3i8,
                Letter::E => 4i8,
                Letter::B => 5i8,
            }),
    {
        match self {
            Letter::F => -1,
            Letter::C => 0,
            Letter::G => 1,
            Letter::D => 2,
            Letter::A => 3,
            Letter::E => 4,
            Letter::B => 5,
        }
    }

    /// The place of the letter in the scale of C, from 0 for C to 6 for B.
    #[verifier::allow_in_spec]
    pub fn index(self) -> i8
        returns
            (match self {
                Letter::C => 0i8,
                Letter::D => 1i8,
                Letter::E => 2i8,
                Letter::F => 3i8,
                Letter::G => 4i8,
                Letter::A => 5i8,
                Letter::B => 6i8,
            }),
    {
        match self {
            Letter::C => 0,
            Letter::D => 1,
            Letter::E => 2,
            Letter::F => 3,
            Letter::G => 4,
            Letter::A => 5,
            Letter::B => 6,
        }
    }

    /// The letter at a place of the scale of C, from 0 for C to 6 for B.
    pub open spec fn spec_from_index(index: i8) -> Letter {
        if index == 0 {
            Letter::C
        } else if index == 1 {
            Letter::D
        } else if index == 2 {
            Letter::E
        } else if index == 3 {
            Letter::F
        } else if index == 4 {
            Letter::G
        } else if index == 5 {
            Letter::A
        } else {
            Letter::B
        }
    }

    /// The letter at a place of the scale of C.
    #[verifier::when_used_as_spec(spec_from_index)]
    pub fn from_index(index: i8) -> (r: Letter)
        requires
            0 <= index < 7,
        ensures
            r == Self::spec_from_index(index),
            r.index() == index,
    {
        if index == 0 {
            Letter::C
        } else if index == 1 {
            Letter::D
        } else if index == 2 {
            Letter::E
        } else if index == 3 {
            Letter::F
        } else if index == 4 {
            Letter::G
        } else if index == 5 {
            Letter::A
        } else {
            Letter::B
        }
    }

    /// Semitones from C up to the natural note of this letter.
    #[verifier::allow_in_spec]
    pub fn base_midi_number(&self) -> i8
        returns
            (match self {
                Letter::C => 0i8,
                Letter::D => 2i8,
                Letter::E => 4i8,
                Letter::F => 5i8,
                Letter::G => 7i8,
                Letter::A => 9i8,
                Letter::B => 11i8,
            }),
    {
        match self {
            Letter::C => 0,
            Letter::D => 2,
            Letter::E => 4,
            Letter::F => 5,
            Letter::G => 7,
            Letter::A => 9,
            Letter::B => 11,
        }
    }

    /// The letter one step up, B being followed by C.
    pub fn next(self) -> (r: Letter)
        ensures
            r.index() == (self.index() + 1) % 7,
    {
        match self {
            Letter::C => Letter::D,
            Letter::D => Letter::E,
            Letter::E => Letter::F,
            Letter::F => Letter::G,
            Letter::G => Letter::A,
            Letter::A => Letter::B,
            Letter::B => Letter::C,
        }
    }

    /// The letter one step down, C being preceded by B.
    pub fn prev(self) -> (r: Letter)
        ensures
            r.index() == (self.index() + 6) % 7,
    {
        match self {
            Letter::C => Letter::B,
            Letter::D => Letter::C,
            Letter::E => Letter::D,
            Letter::F => Letter::E,
            Letter::G => Letter::F,
            Letter::A => Letter::G,
            Letter::B => Letter::A,
        }
    }

    /// Reads a letter from a character of either case, or says that it is none.
    pub fn from_char(c: char) -> (r: Result<Letter, &'static str>)
        ensures
            match Self::spec_from_char(c) {
                Some(letter) => r == Ok::<Letter, &'static str>(letter),
                None => r matches Err(e) && e@ == "Invalid letter"@,
            },
    {
        match c {
            'C' | 'c' => Ok(Letter::C),
            'D' | 'd' => Ok(Letter::D),
            'E' | 'e' => Ok(Letter::E),
            'F' | 'f' => Ok(Letter::F),
            'G' | 'g' => Ok(Letter::G),
            'A' | 'a' => Ok(Letter::A),
            'B' | 'b' => Ok(Letter::B),
            _ => Err("Invalid letter"),
        }
    }

    /// All seven letters, from C up to B.
    pub open spec fn spec_all() -> Seq<Letter> {
        seq![Letter::C, Letter::D, Letter::E, Letter::F, Letter::G, Letter::A, Letter::B]
    }

    /// All seven letters, from C up to B.
    pub fn all() -> (r: [Letter; 7])
        ensures
            r@ == Self::spec_all(),
    {
        [Letter::C, Letter::D, Letter::E, Letter::F, Letter::G, Letter::A, Letter::B]
    }

    /// The capital that stands for the letter.
    pub fn symbol(self) -> (r: &'static str)
        ensures
            r@ == self.glyph(),
    {
        match self {
            Letter::C => "C",
            Letter::D => "D",
            Letter::E => "E",
            Letter::F => "F",
            Letter::G => "G",
            Letter::A => "A",
            Letter::B => "B",
        }
    }

    /// Writes the letter out.
    pub fn to_string(&self) -> (r: String)
        ensures
            r@ == self.glyph(),
    {
        String::from_str(self.symbol())
    }

    /// Reads a letter from a text of exactly one character. Any other text is
    /// handed back in the error.
    pub fn from_str(s: &str) -> (r: Result<Letter, ParseError>)
        ensures
            outcome(r) == Self::spec_from_str(s@),
    {
        if s.unicode_len() != 1 {
            return Err(ParseError::InvalidNoteName(String::from_str(s)));
        }
        match Letter::from_char(s.get_char(0)) {
            Ok(letter) => Ok(letter),
            Err(_) => Err(ParseError::InvalidNoteName(String::from_str(s))),
        }
    }
}

impl std::str::FromStr for Letter {
    type Err = ParseError;

    /// Reads a letter, as [`Letter::from_str`] does.
    fn from_str(s: &str) -> (r: Result<Letter, ParseError>)
        ensures
            outcome(r) == Self::spec_from_str(s@),
    {
        Letter::from_str(s)
    }
}

} // verus!
