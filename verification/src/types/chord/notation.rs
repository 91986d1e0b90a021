//! Chords read from a list of note names.
use vstd::prelude::*;
use vstd::string::StrSliceExecFns;

use super::{is_chord_on, Chord};
use crate::error::{ParseError, ParseFault};
use crate::text::chars_of;
use crate::types::NoteName;

verus! {

/// Whether a character is white space, as Unicode lists it.
pub open spec fn is_white_space(c: char) -> bool {
    let code = c as u32;
    ||| 0x09 <= code <= 0x0D
    ||| code == 0x20
    ||| code == 0x85
    ||| code == 0xA0
    ||| code == 0x1680
    ||| 0x2000 <= code <= 0x200A
    ||| code == 0x2028
    ||| code == 0x2029
    ||| code == 0x202F
    ||| code == 0x205F
    ||| code == 0x3000
}

/// The place, from `from` on, of the first comma, or the length of the text
/// where there is none.
pub open spec fn piece_end(text: Seq<char>, from: int) -> int
    decreases text.len() - from,
{
    if from >= text.len() {
        text.len() as int
    } else if text[from] == ',' {
        from
    } else {
        piece_end(text, from + 1)
    }
}

/// The place, from `from` up to `to`, of the first character that is no
/// white space, or `to` where there is none.
pub open spec fn content_start(text: Seq<char>, from: int, to: int) -> int
    decreases to - from,
{
    if from >= to {
        to
    } else if !is_white_space(text[from]) {
        from
    } else {
        content_start(text, from + 1, to)
    }
}

/// The place after the last character between `from` and `to` that is no
/// white space, or `from` where there is none.
pub open spec fn content_end(text: Seq<char>, from: int, to: int) -> int
    decreases to - from,
{
    if to <= from {
        from
    } else if !is_white_space(text[to - 1]) {
        to
    } else {
        content_end(text, from, to - 1)
    }
}

/// What stands between the places `from` and `to` of a text, without the
/// white space at either end.
pub open spec fn trimmed(text: Seq<char>, from: int, to: int) -> Seq<char> {
    let start = content_start(text, from, to);
    text.subrange(start, content_end(text, start, to))
}

/// The notes that a text lists from the place `from` on: note names with
/// commas between them, each with any white space around it. The fault of
/// the first name that is none is the fault of the list.
pub open spec fn listed_notes(text: Seq<char>, from: int) -> Result<Seq<NoteName>, ParseFault>
    decreases text.len() - from,
{
    if from > text.len() || from < 0 {
        Ok(Seq::empty())
    } else {
        let end = piece_end(text, from);
        proof {
            lemma_piece_end(text, from);
        }
        match NoteName::spec_from_str(trimmed(text, from, end)) {
            Err(fault) => Err(fault),
            Ok(note) => if end >= text.len() {
                Ok(seq![note])
            } else {
                match listed_notes(text, end + 1) {
                    Err(fault) => Err(fault),
                    Ok(rest) => Ok(seq![note] + rest),
                }
            },
        }
    }
}

/// The list of notes with some notes already read put before it.
pub open spec fn after(read: Seq<NoteName>, rest: Result<Seq<NoteName>, ParseFault>) -> Result<
    Seq<NoteName>,
    ParseFault,
> {
    match rest {
        Err(fault) => Err(fault),
        Ok(notes) => Ok(read + notes),
    }
}

/// A piece of a text ends within the text, at a comma or at the end.
pub proof fn lemma_piece_end(text: Seq<char>, from: int)
    requires
        0 <= from <= text.len(),
    ensures
        from <= piece_end(text, from) <= text.len(),
        piece_end(text, from) < text.len() ==> text[piece_end(text, from)] == ',',
    decreases text.len() - from,
{
    if from < text.len() && text[from] != ',' {
        lemma_piece_end(text, from + 1);
    }
}

/// Whether a character is white space.
pub fn char_is_white_space(c: char) -> (r: bool)
    ensures
        r == is_white_space(c),
{
    let code = c as u32;
    (0x09 <= code && code <= 0x0D) || code == 0x20 || code == 0x85 || code == 0xA0 || code
        == 0x1680 || (0x2000 <= code && code <= 0x200A) || code == 0x2028 || code == 0x2029
        || code == 0x202F || code == 0x205F || code == 0x3000
}

impl Chord {
    /// Reads a chord from the names of its notes, written with commas
    /// between them, as in `C,E,G`. White space around a name does not
    /// count. A written chord names its root first: the chord has the
    /// first note as its root, and the intervals from it to each of the
    /// notes in turn. The first name that cannot be read gives its error.
    pub fn from_str(s: &str) -> (r: Result<Chord, ParseError>)
        ensures
            match listed_notes(s@, 0) {
                Err(fault) => r matches Err(e) && e@ == fault,
                Ok(notes) => r matches Ok(chord) && notes.len() > 0 && is_chord_on(
                    notes,
                    notes[0],
                    chord,
                ),
            },
    {
        let chars = chars_of(s);
        let length = chars.len();
        let mut notes: Vec<NoteName> = Vec::new();
        let mut from: usize = 0;
        let mut done = false;
        while !done
            invariant
                from <= length,
                length == chars@.len(),
                chars@ == s@,
                !done ==> listed_notes(s@, 0) == after(notes@, listed_notes(s@, from as int)),
                done ==> listed_notes(s@, 0) == Ok::<Seq<NoteName>, ParseFault>(notes@),
                done ==> notes@.len() > 0,
                forall|i: int| 0 <= i < notes@.len() ==> (#[trigger] notes@[i]).is_valid(),
            decreases
                    (if done {
                        0
                    } else {
                        length - from + 1
                    }),
        {
            let mut end: usize = from;
            while end < length && chars[end] != ','
                invariant
                    from <= end <= length,
                    length == chars@.len(),
                    piece_end(chars@, from as int) == piece_end(chars@, end as int),
                decreases length - end,
            {
                end = end + 1;
            }
            let mut start: usize = from;
            while start < end && char_is_white_space(chars[start])
                invariant
                    from <= start <= end <= length,
                    length == chars@.len(),
                    content_start(chars@, from as int, end as int) == content_start(
                        chars@,
                        start as int,
                        end as int,
                    ),
                decreases end - start,
            {
                start = start + 1;
            }
            let mut stop: usize = end;
            while stop > start && char_is_white_space(chars[stop - 1])
                invariant
                    start <= stop <= end <= length,
                    length == chars@.len(),
                    content_end(chars@, start as int, end as int) == content_end(
                        chars@,
                        start as int,
                        stop as int,
                    ),
                decreases stop - start,
            {
                stop = stop - 1;
            }
            let piece = s.substring_char(start, stop);
            assert(piece@ =~= trimmed(s@, from as int, end as int));
            let ghost before = notes@;
            match NoteName::from_str(piece) {
                Ok(note) => {
                    notes.push(note);
                },
                Err(e) => {
                    return Err(e);
                },
            }
            if end >= length {
                assert(notes@ =~= before + seq![notes@.last()]);
                done = true;
            } else {
                proof {
                    match listed_notes(s@, end + 1) {
                        Ok(more) => {
                            assert(before + (seq![notes@.last()] + more) =~= notes@ + more);
                        },
                        Err(_) => {},
                    }
                }
                from = end + 1;
            }
        }
        Ok(Chord::from_notes_and_root(notes.as_slice(), notes[0]))
    }
}

impl std::str::FromStr for Chord {
    type Err = ParseError;

    /// Reads a chord, as [`Chord::from_str`] does.
    fn from_str(s: &str) -> (r: Result<Chord, ParseError>)
        ensures
            match listed_notes(s@, 0) {
                Err(fault) => r matches Err(e) && e@ == fault,
                Ok(notes) => r matches Ok(chord) && notes.len() > 0 && is_chord_on(
                    notes,
                    notes[0],
                    chord,
                ),
            },
    {
        Chord::from_str(s)
    }
}

} // verus!
