//! Transformations of chords.
pub mod neo_riemann;
