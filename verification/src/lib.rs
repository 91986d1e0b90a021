//! Western tonal-music pitch structures on the line of fifths: note names,
//! intervals, pitches, scales and chords, together with the search that picks
//! a conventional enharmonic spelling after a transposition by semitones.
//!
//! Every executable function carries a contract that Verus proves. Note names
//! form a torsor under the group of intervals; the laws are stated in
//! [`laws`].
pub mod arith;
pub mod error;
pub mod laws;
pub mod prelude;
pub mod symbols;
pub mod syntax;
pub mod text;
pub mod traits;
pub mod transformation;
pub mod transposition;
pub mod types;

pub use syntax::is_valid_note;
pub use types::{
    scales, Accidental, AddedNote, AlteredFifthType, AlteredNinthType, Chord, ChordExtension,
    ChordQuality, EleventhType, HarmonicFunction, Interval, Key, Letter, NinthType, NoteName,
    OmittedNote, Pitch, Scale, ScaleBitmask, ScaleDefinition, ScaleDegree, SeventhType,
    SuspendedType, ThirteenthType,
};
