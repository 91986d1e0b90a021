//! Intervals written out and read back.
use vstd::prelude::*;
use vstd::string::StringExecFns;

use super::Interval;
use crate::error::{outcome, ParseError, ParseFault};
use crate::text::{chars_of, decimal, integer_to_string, parse_u8, read_u8};

verus! {

/// How many times in a row a character stands in a text from a place on.
pub open spec fn run_length(text: Seq<char>, c: char, from: int) -> nat
    decreases text.len() - from,
{
    if 0 <= from < text.len() && text[from] == c {
        1 + run_length(text, c, from + 1)
    } else {
        0
    }
}

impl Interval {
    /// Whether the interval has a name of its own: its fifths lie from -12
    /// to 12, and it is within the octave and no augmented unison, or in
    /// the octave above and no diminished fifteenth.
    pub open spec fn is_named(&self) -> bool {
        &&& -12 <= self.fifths <= 12
        &&& (self.octaves == 0 && self.fifths != 7) || (self.octaves == 1 && self.fifths != -7)
    }

    /// The letter for the quality of a named interval, by its fifths: `P`
    /// from -1 to 1, `M` from 2 to 5, `m` from -5 to -2, `A` above, `d` below.
    pub open spec fn quality_glyph(&self) -> Seq<char> {
        if self.fifths < -5 {
            "d"@
        } else if self.fifths < -1 {
            "m"@
        } else if self.fifths <= 1 {
            "P"@
        } else if self.fifths <= 5 {
            "M"@
        } else {
            "A"@
        }
    }

    /// The number in the name of a named interval: its generic number, but
    /// 8 and not 1 for the diminished octave.
    pub open spec fn name_number(&self) -> int {
        if self.fifths == -7 {
            self.generic_number() + 7
        } else {
            self.generic_number()
        }
    }

    /// The interval written out. A named interval is written as the letter
    /// of its quality and its number, as in `P5` or `m10`. Any other is
    /// written with its fifths, its octaves, its generic number and its
    /// semitones, as in `interval(7f,0o,g:1,s:1)`.
    pub open spec fn text(&self) -> Seq<char> {
        if self.is_named() {
            self.quality_glyph() + decimal(self.name_number())
        } else {
            "interval("@ + decimal(self.fifths as int) + "f,"@ + decimal(self.octaves as int)
                + "o,g:"@ + decimal(self.generic_number()) + ",s:"@ + decimal(
                self.semitone_count(),
            ) + ")"@
        }
    }

    /// The fifths of the interval that a quality makes of a number. A
    /// perfect interval stays as it is; so does a major one; a minor one
    /// lies seven fifths below the major one. Each augmentation adds seven
    /// fifths, each diminution takes seven away, from the perfect or from
    /// the minor interval. `None` says that intervals of this number do not
    /// come in this quality.
    pub open spec fn quality_fifths(quality: char, count: int, number: int) -> Option<int> {
        let base = Self::natural_of_number(number).fifths as int;
        let perfect = Self::number_is_perfect(number);
        if quality == 'P' {
            if perfect {
                Some(base)
            } else {
                None
            }
        } else if quality == 'M' {
            if perfect {
                None
            } else {
                Some(base)
            }
        } else if quality == 'm' {
            if perfect {
                None
            } else {
                Some(base - 7)
            }
        } else if quality == 'A' {
            Some(base + 7 * count)
        } else if perfect {
            Some(base - 7 * count)
        } else {
            Some(base - 7 - 7 * count)
        }
    }

    /// The interval that a text writes, if it writes one: a quality, which
    /// is one of `P`, `M`, `m`, or `A` or `d` any number of times over; then
    /// a number from 1 to 255. The quality must be one that intervals of
    /// this number come in, and the fifths must fit their type.
    pub open spec fn parsed(text: Seq<char>) -> Option<Interval> {
        if text.len() == 0 {
            None
        } else {
            let quality = text[0];
            if quality != 'P' && quality != 'M' && quality != 'm' && quality != 'A' && quality
                != 'd' {
                None
            } else {
                let count: int = if quality == 'A' || quality == 'd' {
                    run_length(text, quality, 0) as int
                } else {
                    1
                };
                match parse_u8(text.skip(count)) {
                    None => None,
                    Some(number) => if number == 0 {
                        None
                    } else {
                        match Self::quality_fifths(quality, count, number as int) {
                            None => None,
                            Some(fifths) => if i8::MIN <= fifths <= i8::MAX {
                                Some(
                                    Interval {
                                        fifths: fifths as i8,
                                        octaves: Self::natural_of_number(number as int).octaves,
                                    },
                                )
                            } else {
                                None
                            },
                        }
                    },
                }
            }
        }
    }

    /// The interval read from a text. A text that writes none is itself the
    /// fault.
    pub open spec fn spec_from_str(text: Seq<char>) -> Result<Interval, ParseFault> {
        match Self::parsed(text) {
            Some(interval) => Ok(interval),
            None => Err(ParseFault::InvalidInterval(text)),
        }
    }

    /// Writes the interval out.
    pub fn to_string(&self) -> (r: String)
        ensures
            r@ == self.text(),
    {
        let named = -12 <= self.fifths && self.fifths <= 12 && ((self.octaves == 0 && self.fifths
            != 7) || (self.octaves == 1 && self.fifths != -7));
        if named {
            let quality = if self.fifths < -5 {
                "d"
            } else if self.fifths < -1 {
                "m"
            } else if self.fifths <= 1 {
                "P"
            } else if self.fifths <= 5 {
                "M"
            } else {
                "A"
            };
            let number: i32 = if self.fifths == -7 {
                self.generic_interval_number() + 7
            } else {
                self.generic_interval_number()
            };
            String::from_str(quality).concat(integer_to_string(number).as_str())
        } else {
            let fifths = integer_to_string(self.fifths as i32);
            let octaves = integer_to_string(self.octaves as i32);
            let generic = integer_to_string(self.generic_interval_number());
            let semitones = integer_to_string(self.total_semitones());
            String::from_str("interval(").concat(fifths.as_str()).concat("f,").concat(
                octaves.as_str(),
            ).concat("o,g:").concat(generic.as_str()).concat(",s:").concat(
                semitones.as_str(),
            ).concat(")")
        }
    }

    /// Reads an interval from its name, such as `P5`, `m3`, `A4` or `dd5`.
    pub fn from_str(s: &str) -> (r: Result<Interval, ParseError>)
        ensures
            outcome(r) == Self::spec_from_str(s@),
    {
        match Self::parse(s) {
            Some(interval) => Ok(interval),
            None => Err(ParseError::InvalidInterval(String::from_str(s))),
        }
    }

    /// Reads an interval from its name, if the text is one.
    pub fn parse(s: &str) -> (r: Option<Interval>)
        ensures
            r == Self::parsed(s@),
    {
        let chars = chars_of(s);
        let length = chars.len();
        if length == 0 {
            return None;
        }
        let quality = chars[0];
        if quality != 'P' && quality != 'M' && quality != 'm' && quality != 'A' && quality != 'd' {
            return None;
        }
        let mut count: usize = 1;
        if quality == 'A' || quality == 'd' {
            while count < length && chars[count] == quality
                invariant
                    1 <= count <= length,
                    length == chars@.len(),
                    chars@[0] == quality,
                    run_length(chars@, quality, 0) == count + run_length(
                        chars@,
                        quality,
                        count as int,
                    ),
                decreases length - count,
            {
                count = count + 1;
            }
        }
        assert(chars@.subrange(count as int, length as int) =~= s@.skip(count as int));
        let number: u8 = match read_u8(chars.as_slice(), count, length) {
            Some(number) => number,
            None => {
                return None;
            },
        };
        if number == 0 {
            return None;
        }
        if count > 20 {
            return None;
        }
        let (base_fifths, octaves) = Self::interval_number_to_fifths_and_octaves(number);
        let perfect = Self::can_be_perfect(number);
        let base: i32 = base_fifths as i32;
        let times: i32 = count as i32;
        let fifths: i32 = if quality == 'P' {
            if !perfect {
                return None;
            }
            base
        } else if quality == 'M' {
            if perfect {
                return None;
            }
            base
        } else if quality == 'm' {
            if perfect {
                return None;
            }
            base - 7
        } else if quality == 'A' {
            base + 7 * times
        } else if perfect {
            base - 7 * times
        } else {
            base - 7 - 7 * times
        };
        if fifths < -128 || fifths > 127 {
            return None;
        }
        Some(Interval::new(fifths as i8, octaves))
    }
}

impl std::str::FromStr for Interval {
    type Err = ParseError;

    /// Reads an interval, as [`Interval::from_str`] does.
    fn from_str(s: &str) -> (r: Result<Interval, ParseError>)
        ensures
            outcome(r) == Self::spec_from_str(s@),
    {
        Interval::from_str(s)
    }
}

} // verus!
