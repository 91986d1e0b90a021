//! The value types of the library.
pub mod accidental;
pub mod chord;
pub mod chord_extension;
pub mod interval;
pub mod key;
pub mod letter;
pub mod note_name;
pub mod pitch;
pub mod scale;

pub use accidental::Accidental;
pub use chord::{Chord, ChordQuality, HarmonicFunction};
pub use chord_extension::{
    AddedNote, AlteredFifthType, AlteredNinthType, ChordExtension, EleventhType, NinthType,
    OmittedNote, SeventhType, SuspendedType, ThirteenthType,
};
pub use interval::Interval;
pub use key::Key;
pub use letter::Letter;
pub use note_name::NoteName;
pub use pitch::Pitch;
pub use scale::{scales, Scale, ScaleBitmask, ScaleDefinition, ScaleDegree};
