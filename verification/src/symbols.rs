//! Glyphs used when a note or an accidental is written out.
use vstd::prelude::*;

verus! {

pub const FLAT: &'static str = "♭";

pub const SHARP: &'static str = "♯";

pub const DOUBLE_FLAT: &'static str = "𝄫";

pub const DOUBLE_SHARP: &'static str = "𝄪";

pub const NATURAL: &'static str = "♮";

pub const C: &'static str = "C";

pub const D: &'static str = "D";

pub const E: &'static str = "E";

pub const F: &'static str = "F";

pub const G: &'static str = "G";

pub const A: &'static str = "A";

pub const B: &'static str = "B";

} // verus!
