//! The names that most users of the library need, to be imported together.
pub use crate::error::{ParseError, TypeError};
pub use crate::symbols::{
    A, B, C, D, DOUBLE_FLAT, DOUBLE_SHARP, E, F, FLAT, G, NATURAL, SHARP,
};
pub use crate::traits::{
    ChordLike, HasIntervals, HasRoot, Invertible, Torsor, Transposable,
};
pub use crate::types::scales;
pub use crate::types::{
    Accidental, Chord, ChordQuality, HarmonicFunction, Interval, Key, Letter, NoteName, Pitch,
    Scale, ScaleDefinition, ScaleDegree,
};
