//! Intervals as positions on the line of fifths, with an octave count.
use std::cmp::Ordering;
use std::ops::{Add, Neg, Sub};
use vstd::prelude::*;

use crate::arith::{wrap_letters, wrap_octave};

pub mod named;
pub mod notation;

verus! {

/// A musical interval: so many fifths up the line of fifths, and so many
/// octaves. Intervals form a group under addition, component by component;
/// the unison is its identity.
///
/// Two intervals are equal when both components are. An augmented fourth and
/// a diminished fifth span the same six semitones and are different
/// intervals. The order `<` goes by semitones alone.
#[derive(Debug, Clone, Copy, PartialEq, Eq, Hash, Structural)]
pub struct Interval {
    /// Steps along the line of fifths.
    pub fifths: i8,
    /// Whole octaves on top of the interval within one octave.
    pub octaves: i8,
}

impl Interval {
    /// The semitones that the interval spans: seven for each fifth, brought
    /// into one octave from 0 to 11, and twelve for each octave.
    pub open spec fn semitone_count(&self) -> int {
        (self.fifths * 7) % 12 + self.octaves * 12
    }

    /// The number by which musicians call the interval: 1 for a unison, 2 for
    /// a second, 8 for an octave. Each fifth moves four letters on.
    pub open spec fn generic_number(&self) -> int {
        (self.fifths * 4) % 7 + self.octaves * 7 + 1
    }

    /// Whether intervals of this number come as perfect rather than as major
    /// and minor: unisons, fourths, fifths and their octaves.
    pub open spec fn number_is_perfect(number: int) -> bool {
        (number - 1) % 7 == 0 || (number - 1) % 7 == 3 || (number - 1) % 7 == 4
    }

    /// The sum of two intervals, component by component, each component
    /// wrapped to its eight bits.
    pub open spec fn sum(self, other: Interval) -> Interval {
        Interval {
            fifths: (self.fifths + other.fifths) as i8,
            octaves: (self.octaves + other.octaves) as i8,
        }
    }

    /// Whether the sum of two intervals can be held: neither component
    /// leaves the range of its type.
    pub open spec fn sum_fits(self, other: Interval) -> bool {
        &&& i8::MIN <= self.fifths + other.fifths <= i8::MAX
        &&& i8::MIN <= self.octaves + other.octaves <= i8::MAX
    }

    /// The difference of two intervals, component by component, each
    /// component wrapped to its eight bits.
    pub open spec fn difference(self, other: Interval) -> Interval {
        Interval {
            fifths: (self.fifths - other.fifths) as i8,
            octaves: (self.octaves - other.octaves) as i8,
        }
    }

    /// Whether the difference of two intervals can be held.
    pub open spec fn difference_fits(self, other: Interval) -> bool {
        &&& i8::MIN <= self.fifths - other.fifths <= i8::MAX
        &&& i8::MIN <= self.octaves - other.octaves <= i8::MAX
    }

    /// The interval that undoes this one, each component wrapped to its
    /// eight bits.
    pub open spec fn inverse(self) -> Interval {
        Interval { fifths: (-self.fifths) as i8, octaves: (-self.octaves) as i8 }
    }

    /// Whether the inverse can be held: neither component is the least value
    /// of its type.
    pub open spec fn inverse_fits(self) -> bool {
        self.fifths > i8::MIN && self.octaves > i8::MIN
    }

    /// An interval of so many fifths and so many octaves.
    pub fn new(fifths: i8, octaves: i8) -> (r: Interval)
        ensures
            r == (Interval { fifths, octaves }),
    {
        Interval { fifths, octaves }
    }

    /// An interval of so many fifths, within one octave.
    pub fn with_fifths(fifths: i8) -> (r: Interval)
        ensures
            r == (Interval { fifths, octaves: 0 }),
    {
        Interval { fifths, octaves: 0 }
    }

    /// Steps along the line of fifths.
    #[verifier::allow_in_spec]
    pub fn fifths(&self) -> i8
        returns
            self.fifths,
    {
        self.fifths
    }

    /// Whole octaves.
    #[verifier::allow_in_spec]
    pub fn octaves(&self) -> i8
        returns
            self.octaves,
    {
        self.octaves
    }

    /// The semitones that the interval spans, for an interval whose count
    /// fits the result.
    pub fn semitones(&self) -> (r: i8)
        requires
            i8::MIN <= self.semitone_count() <= i8::MAX,
        ensures
            r == self.semitone_count(),
    {
        self.total_semitones() as i8
    }

    /// The same interval within one octave.
    pub fn interval_class(&self) -> (r: Interval)
        ensures
            r == (Interval { fifths: self.fifths, octaves: 0 }),
    {
        Interval { fifths: self.fifths, octaves: 0 }
    }

    /// The number by which musicians call the interval.
    pub fn generic_interval_number(&self) -> (r: i32)
        ensures
            r == self.generic_number(),
    {
        let fifths: i32 = self.fifths as i32;
        let octaves: i32 = self.octaves as i32;
        wrap_letters(fifths * 4) + octaves * 7 + 1
    }

    /// The semitones that the interval spans, whatever its size.
    pub fn total_semitones(&self) -> (r: i32)
        ensures
            r == self.semitone_count(),
    {
        let fifths: i32 = self.fifths as i32;
        let octaves: i32 = self.octaves as i32;
        wrap_octave(fifths * 7) + octaves * 12
    }

    /// The major or perfect interval that musicians call by a number from 1
    /// on: the unison, major second, major third, perfect fourth, perfect
    /// fifth, major sixth or major seventh, and as many octaves as the
    /// number holds sevens.
    pub open spec fn natural_of_number(number: int) -> Interval {
        let place = (number - 1) % 7;
        Interval {
            fifths: if place == 0 {
                0i8
            } else if place == 1 {
                2i8
            } else if place == 2 {
                4i8
            } else if place == 3 {
                -1i8
            } else if place == 4 {
                1i8
            } else if place == 5 {
                3i8
            } else {
                5i8
            },
            octaves: ((number - 1) / 7) as i8,
        }
    }

    /// The major or perfect interval of a given number, as fifths and
    /// octaves. It is the one interval of that number whose fifths lie from
    /// -1 to 5.
    pub fn interval_number_to_fifths_and_octaves(number: u8) -> (r: (i8, i8))
        requires
            number >= 1,
        ensures
            r == (
                Self::natural_of_number(number as int).fifths,
                Self::natural_of_number(number as int).octaves,
            ),
            -1 <= r.0 <= 5,
            (Interval { fifths: r.0, octaves: r.1 }).generic_number() == number,
    {
        let octaves: i8 = ((number - 1) / 7) as i8;
        let base_number: u8 = ((number - 1) % 7) + 1;
        let base_fifths: i8 = if base_number == 1 {
            0
        } else if base_number == 2 {
            2
        } else if base_number == 3 {
            4
        } else if base_number == 4 {
            -1
        } else if base_number == 5 {
            1
        } else if base_number == 6 {
            3
        } else {
            5
        };
        (base_fifths, octaves)
    }

    /// Whether intervals of this number come as perfect.
    pub fn can_be_perfect(number: u8) -> (r: bool)
        requires
            number >= 1,
        ensures
            r == Self::number_is_perfect(number as int),
    {
        let base_number: u8 = ((number - 1) % 7) + 1;
        base_number == 1 || base_number == 4 || base_number == 5
    }

    /// Whether the interval is a perfect, augmented or diminished fifth.
    #[verifier::allow_in_spec]
    pub fn is_fifth(&self) -> bool
        returns
            (*self == Self::perfect_fifth() || *self == Self::augmented_fifth() || *self
                == Self::diminished_fifth()),
    {
        *self == Self::perfect_fifth() || *self == Self::augmented_fifth() || *self
            == Self::diminished_fifth()
    }

    /// Whether the interval is a major, minor, augmented or diminished third.
    #[verifier::allow_in_spec]
    pub fn is_third(&self) -> bool
        returns
            (*self == Self::major_third() || *self == Self::minor_third() || *self
                == Self::augmented_third() || *self == Self::diminished_third()),
    {
        *self == Self::major_third() || *self == Self::minor_third() || *self
            == Self::augmented_third() || *self == Self::diminished_third()
    }

    /// Whether the interval is a major, minor, augmented or diminished
    /// seventh.
    #[verifier::allow_in_spec]
    pub fn is_seventh(&self) -> bool
        returns
            (*self == Self::diminished_seventh() || *self == Self::minor_seventh() || *self
                == Self::major_seventh() || *self == Self::augmented_seventh()),
    {
        *self == Self::diminished_seventh() || *self == Self::minor_seventh() || *self
            == Self::major_seventh() || *self == Self::augmented_seventh()
    }

    /// How the interval stands to another by the semitones they span.
    pub open spec fn order(&self, other: &Interval) -> Ordering {
        if self.semitone_count() < other.semitone_count() {
            Ordering::Less
        } else if self.semitone_count() == other.semitone_count() {
            Ordering::Equal
        } else {
            Ordering::Greater
        }
    }

    /// Compares two intervals by the semitones they span. Intervals that are
    /// not equal may compare as `Equal`.
    pub fn cmp(&self, other: &Interval) -> (r: Ordering)
        ensures
            r == self.order(other),
    {
        let mine: i32 = self.total_semitones();
        let theirs: i32 = other.total_semitones();
        if mine < theirs {
            Ordering::Less
        } else if mine == theirs {
            Ordering::Equal
        } else {
            Ordering::Greater
        }
    }
}

impl Add for Interval {
    type Output = Interval;

    /// The interval made of one interval followed by another.
    fn add(self, other: Interval) -> (r: Interval) {
        Interval { fifths: self.fifths + other.fifths, octaves: self.octaves + other.octaves }
    }
}

impl vstd::std_specs::ops::AddSpecImpl for Interval {
    open spec fn obeys_add_spec() -> bool {
        true
    }

    open spec fn add_req(self, other: Interval) -> bool {
        self.sum_fits(other)
    }

    open spec fn add_spec(self, other: Interval) -> Interval {
        self.sum(other)
    }
}

impl Sub for Interval {
    type Output = Interval;

    /// What is left of one interval when another is taken away.
    fn sub(self, other: Interval) -> (r: Interval) {
        Interval { fifths: self.fifths - other.fifths, octaves: self.octaves - other.octaves }
    }
}

impl vstd::std_specs::ops::SubSpecImpl for Interval {
    open spec fn obeys_sub_spec() -> bool {
        true
    }

    open spec fn sub_req(self, other: Interval) -> bool {
        self.difference_fits(other)
    }

    open spec fn sub_spec(self, other: Interval) -> Interval {
        self.difference(other)
    }
}

impl Neg for Interval {
    type Output = Interval;

    /// The interval that undoes this one.
    fn neg(self) -> (r: Interval) {
        Interval { fifths: -self.fifths, octaves: -self.octaves }
    }
}

impl vstd::std_specs::ops::NegSpecImpl for Interval {
    open spec fn obeys_neg_spec() -> bool {
        true
    }

    open spec fn neg_req(self) -> bool {
        self.inverse_fits()
    }

    open spec fn neg_spec(self) -> Interval {
        self.inverse()
    }
}

impl PartialOrd for Interval {
    /// Compares by the semitones spanned, so every two intervals compare.
    fn partial_cmp(&self, other: &Interval) -> (r: Option<Ordering>) {
        Some(self.cmp(other))
    }
}

impl vstd::std_specs::cmp::PartialOrdSpecImpl for Interval {
    open spec fn obeys_partial_cmp_spec() -> bool {
        true
    }

    open spec fn partial_cmp_spec(&self, other: &Interval) -> Option<Ordering> {
        Some(self.order(other))
    }
}

} // verus!
