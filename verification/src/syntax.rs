//! The shape of a written note or pitch, checked byte by byte.
use vstd::prelude::*;
use vstd::string::StringSliceAdditionalSpecFns;

verus! {

/// The byte of the letter `A`.
pub const UPPER_A: u8 = 65;

/// The byte of the letter `G`.
pub const UPPER_G: u8 = 71;

/// The byte of the letter `a`.
pub const LOWER_A: u8 = 97;

/// The byte of the letter `g`.
pub const LOWER_G: u8 = 103;

/// The byte of the digit `0`.
pub const DIGIT_0: u8 = 48;

/// The byte of the digit `9`.
pub const DIGIT_9: u8 = 57;

/// The byte of the minus sign.
pub const MINUS: u8 = 45;

/// The byte of `b`, which writes a flat.
pub const FLAT: u8 = 98;

/// The byte of `#`, which writes a sharp.
pub const SHARP: u8 = 35;

/// The byte of `n`, which writes a natural.
pub const NATURAL: u8 = 110;

/// Whether a byte is a letter from A to G, in either case.
pub open spec fn is_letter_byte(b: u8) -> bool {
    (UPPER_A <= b && b <= UPPER_G) || (LOWER_A <= b && b <= LOWER_G)
}

/// Whether a byte is a decimal digit.
pub open spec fn is_digit_byte(b: u8) -> bool {
    DIGIT_0 <= b && b <= DIGIT_9
}

/// The place, from `from` on, of the first byte that is a digit or a minus
/// sign, or the length of the text where there is none. Counted from the
/// second byte, this is where the note ends and the octave begins.
pub open spec fn note_end_from(bytes: Seq<u8>, from: int) -> int
    decreases bytes.len() - from,
{
    if from >= bytes.len() {
        bytes.len() as int
    } else if is_digit_byte(bytes[from]) || bytes[from] == MINUS {
        from
    } else {
        note_end_from(bytes, from + 1)
    }
}

/// Whether what stands between the letter and the place `end` is an
/// accidental: one of `b`, `#` and `n`, or `bb` or `##`.
pub open spec fn accidental_shape(bytes: Seq<u8>, end: int) -> bool {
    let sign = bytes[1];
    &&& sign == FLAT || sign == SHARP || sign == NATURAL
    &&& if end > 2 && bytes[2] == sign {
        sign != NATURAL && end == 3
    } else {
        end == 2
    }
}

/// Whether what stands from the place `end` on is an octave: digits, with
/// or without a minus sign before them.
pub open spec fn octave_shape(bytes: Seq<u8>, end: int) -> bool {
    let start = if bytes[end] == MINUS {
        end + 1
    } else {
        end
    };
    &&& start < bytes.len()
    &&& forall|i: int| start <= i < bytes.len() ==> is_digit_byte(#[trigger] bytes[i])
}

/// Whether the bytes have the shape of a note: a letter from A to G, then
/// nothing or an accidental. Whatever follows from the first digit or minus
/// sign on is not looked at.
///
/// With `check_octave` the shape is that of a pitch: the accidental must be
/// there, if only as `n`, and what follows it, if anything does, must be an
/// octave.
pub open spec fn valid_note_bytes(bytes: Seq<u8>, check_octave: bool) -> bool {
    let end = note_end_from(bytes, 1);
    &&& bytes.len() > 0
    &&& is_letter_byte(bytes[0])
    &&& if end > 1 {
        accidental_shape(bytes, end)
    } else {
        !check_octave
    }
    &&& check_octave && end < bytes.len() ==> octave_shape(bytes, end)
}

/// Whether a text has the shape of a note, or with `check_octave` that of a
/// pitch. Only the accidentals written in ASCII are known here.
pub fn is_valid_note(s: &str, check_octave: bool) -> (r: bool)
    ensures
        r == valid_note_bytes(s.spec_bytes(), check_octave),
{
    let bytes = s.as_bytes();
    let length = bytes.len();
    if length == 0 {
        return false;
    }
    let first = bytes[0];
    if !((UPPER_A <= first && first <= UPPER_G) || (LOWER_A <= first && first <= LOWER_G)) {
        return false;
    }
    let mut note_end: usize = 1;
    while note_end < length && !((DIGIT_0 <= bytes[note_end] && bytes[note_end] <= DIGIT_9)
        || bytes[note_end] == MINUS)
        invariant
            1 <= note_end <= length,
            length == bytes@.len(),
            note_end_from(bytes@, 1) == note_end_from(bytes@, note_end as int),
        decreases length - note_end,
    {
        note_end = note_end + 1;
    }
    if note_end > 1 {
        let sign = bytes[1];
        if !(sign == FLAT || sign == SHARP || sign == NATURAL) {
            return false;
        }
        if note_end > 2 && bytes[2] == sign {
            if sign == NATURAL || note_end != 3 {
                return false;
            }
        } else if note_end != 2 {
            return false;
        }
    } else if check_octave {
        return false;
    }
    if check_octave && note_end < length {
        return is_octave(bytes, note_end);
    }
    true
}

/// Whether what stands from the place `end` on is an octave.
fn is_octave(bytes: &[u8], end: usize) -> (r: bool)
    requires
        end < bytes@.len(),
    ensures
        r == octave_shape(bytes@, end as int),
{
    let length = bytes.len();
    let start: usize = if bytes[end] == MINUS {
        end + 1
    } else {
        end
    };
    if start >= length {
        return false;
    }
    let mut pos: usize = start;
    while pos < length
        invariant
            start <= pos <= length,
            length == bytes@.len(),
            end < length,
            start == (if bytes@[end as int] == MINUS {
                end + 1
            } else {
                end as int
            }),
            forall|i: int| start <= i < pos ==> is_digit_byte(#[trigger] bytes@[i]),
        decreases length - pos,
    {
        if !(DIGIT_0 <= bytes[pos] && bytes[pos] <= DIGIT_9) {
            assert(!is_digit_byte(bytes@[pos as int]));
            return false;
        }
        pos = pos + 1;
    }
    true
}

} // verus!
