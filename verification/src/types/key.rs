//! Keys, by their tonic and their mode.
use vstd::prelude::*;

use super::NoteName;

verus! {

/// A major or a minor key on a tonic. It stands for a key signature, not for
/// a scale.
#[derive(Debug, Clone, Copy, PartialEq, Eq, Hash, Structural)]
pub enum Key {
    /// The major key on a tonic.
    Major(NoteName),
    /// The minor key on a tonic.
    Minor(NoteName),
}

impl Key {
    /// The tonic of the key.
    pub open spec fn tonic(&self) -> NoteName {
        match self {
            Key::Major(note) => *note,
            Key::Minor(note) => *note,
        }
    }

    /// The coordinate of the tonic on the line of fifths: for a major key the
    /// number of sharps in its signature, or of flats where it is negative.
    pub fn accidentals(&self) -> (r: i8)
        ensures
            r == self.tonic().0,
    {
        match self {
            Key::Major(note) => note.fifths(),
            Key::Minor(note) => note.fifths(),
        }
    }
}

} // verus!
