//! Failures reported at the parsing and construction boundary.
use vstd::prelude::*;
use vstd::string::StringExecFns;

use crate::text::{decimal, integer_to_string};

verus! {

/// A string that could not be read as the musical object it was meant to be.
/// Each variant carries the offending text.
#[derive(Debug, Clone, PartialEq)]
pub enum ParseError {
    /// Not one of the accepted accidental tokens.
    InvalidAccidental(String),
    /// Not a letter from A to G.
    InvalidNoteName(String),
    /// Not a chord symbol.
    InvalidChordSymbol(String),
    /// Not a known scale type.
    InvalidScaleType(String),
    /// Matches no known pattern.
    UnrecognizedFormat(String),
    /// Not a note followed by an octave number.
    InvalidPitch(String),
    /// Not an interval, or a quality that the interval's size cannot have.
    InvalidInterval(String),
}

/// A parse error as contracts see it: the same variants, with the rejected
/// text as a sequence of characters.
pub enum ParseFault {
    /// Not one of the accepted accidental tokens.
    InvalidAccidental(Seq<char>),
    /// Not a letter from A to G.
    InvalidNoteName(Seq<char>),
    /// Not a chord symbol.
    InvalidChordSymbol(Seq<char>),
    /// Not a known scale type.
    InvalidScaleType(Seq<char>),
    /// Matches no known pattern.
    UnrecognizedFormat(Seq<char>),
    /// Not a note followed by an octave number.
    InvalidPitch(Seq<char>),
    /// Not an interval, or a quality that the interval's size cannot have.
    InvalidInterval(Seq<char>),
}

impl View for ParseError {
    type V = ParseFault;

    open spec fn view(&self) -> ParseFault {
        match self {
            ParseError::InvalidAccidental(s) => ParseFault::InvalidAccidental(s@),
            ParseError::InvalidNoteName(s) => ParseFault::InvalidNoteName(s@),
            ParseError::InvalidChordSymbol(s) => ParseFault::InvalidChordSymbol(s@),
            ParseError::InvalidScaleType(s) => ParseFault::InvalidScaleType(s@),
            ParseError::UnrecognizedFormat(s) => ParseFault::UnrecognizedFormat(s@),
            ParseError::InvalidPitch(s) => ParseFault::InvalidPitch(s@),
            ParseError::InvalidInterval(s) => ParseFault::InvalidInterval(s@),
        }
    }
}

/// What reading a text came to, as contracts see it: the value read, or the
/// fault found.
pub open spec fn outcome<T>(result: Result<T, ParseError>) -> Result<T, ParseFault> {
    match result {
        Ok(value) => Ok(value),
        Err(error) => Err(error@),
    }
}

impl ParseError {
    /// The text that was rejected.
    pub open spec fn text(&self) -> Seq<char> {
        match self {
            ParseError::InvalidAccidental(s) => s@,
            ParseError::InvalidNoteName(s) => s@,
            ParseError::InvalidChordSymbol(s) => s@,
            ParseError::InvalidScaleType(s) => s@,
            ParseError::UnrecognizedFormat(s) => s@,
            ParseError::InvalidPitch(s) => s@,
            ParseError::InvalidInterval(s) => s@,
        }
    }

    /// What the message says before the quoted text.
    pub open spec fn label(&self) -> Seq<char> {
        match self {
            ParseError::InvalidAccidental(_) => "Invalid accidental: '"@,
            ParseError::InvalidNoteName(_) => "Invalid note name: '"@,
            ParseError::InvalidChordSymbol(_) => "Invalid chord symbol: '"@,
            ParseError::InvalidScaleType(_) => "Invalid scale type: '"@,
            ParseError::UnrecognizedFormat(_) => "Unrecognized format: '"@,
            ParseError::InvalidPitch(_) => "Invalid pitch: '"@,
            ParseError::InvalidInterval(_) => "Invalid interval: '"@,
        }
    }

    /// The message: the label, the rejected text, and a closing quote.
    pub open spec fn message(&self) -> Seq<char> {
        self.label() + self.text() + "'"@
    }

    /// Writes the error out as a message for a reader.
    pub fn to_string(&self) -> (r: String)
        ensures
            r@ == self.message(),
    {
        let (label, text): (&str, &String) = match self {
            ParseError::InvalidAccidental(s) => ("Invalid accidental: '", s),
            ParseError::InvalidNoteName(s) => ("Invalid note name: '", s),
            ParseError::InvalidChordSymbol(s) => ("Invalid chord symbol: '", s),
            ParseError::InvalidScaleType(s) => ("Invalid scale type: '", s),
            ParseError::UnrecognizedFormat(s) => ("Unrecognized format: '", s),
            ParseError::InvalidPitch(s) => ("Invalid pitch: '", s),
            ParseError::InvalidInterval(s) => ("Invalid interval: '", s),
        };
        String::from_str(label).concat(text.as_str()).concat("'")
    }
}

/// A value that a type's constructor cannot accept.
#[derive(Debug, Clone, PartialEq)]
pub enum TypeError {
    /// A scale degree whose step lies outside 1 to 7.
    InvalidScaleDegree(u8),
}

impl TypeError {
    /// The message: what is wrong, and the rejected value between quotes.
    pub open spec fn message(&self) -> Seq<char> {
        match self {
            TypeError::InvalidScaleDegree(step) => "Invalid scale degree: '"@ + decimal(
                *step as int,
            ) + "'"@,
        }
    }

    /// Writes the error out as a message for a reader.
    pub fn to_string(&self) -> (r: String)
        ensures
            r@ == self.message(),
    {
        match self {
            TypeError::InvalidScaleDegree(step) => {
                let number = integer_to_string(*step as i32);
                String::from_str("Invalid scale degree: '").concat(number.as_str()).concat("'")
            },
        }
    }
}

} // verus!
