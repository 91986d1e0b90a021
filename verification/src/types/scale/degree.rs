//! The degrees of a scale, and how a note is matched to one.
use vstd::prelude::*;

use crate::arith::wrap_octave;
use crate::error::TypeError;
use crate::types::{Accidental, NoteName};

verus! {

/// A degree of a scale: the step, counted from 1 for the tonic, and how the
/// note of that step is altered, if it is.
#[derive(Debug, Clone, Copy, PartialEq, Eq, Hash, Structural)]
pub struct ScaleDegree {
    /// The step of the scale, from 1 to 7 in a scale of seven notes.
    pub step: u8,
    /// The accidental by which the note of the step is altered.
    pub alteration: Option<Accidental>,
}

impl ScaleDegree {
    /// The degree with a step and an alteration. The step is not checked
    /// here: see [`ScaleDegree::validate`].
    #[verifier::allow_in_spec]
    pub fn new(step: u8, alteration: Option<Accidental>) -> ScaleDegree
        returns
            (ScaleDegree { step, alteration }),
    {
        ScaleDegree { step, alteration }
    }

    /// Accepts a degree whose step lies from 1 to 7, and rejects any other
    /// with its step.
    pub fn validate(&self) -> (r: Result<(), TypeError>)
        ensures
            1 <= self.step <= 7 ==> r == Ok::<(), TypeError>(()),
            !(1 <= self.step <= 7) ==> r == Err::<(), TypeError>(
                TypeError::InvalidScaleDegree(self.step),
            ),
    {
        if self.step < 1 || self.step > 7 {
            return Err(TypeError::InvalidScaleDegree(self.step));
        }
        Ok(())
    }

    /// The first degree.
    #[verifier::allow_in_spec]
    pub fn tonic() -> ScaleDegree
        returns
            (ScaleDegree { step: 1, alteration: None }),
    {
        ScaleDegree { step: 1, alteration: None }
    }

    /// The second degree.
    #[verifier::allow_in_spec]
    pub fn supertonic() -> ScaleDegree
        returns
            (ScaleDegree { step: 2, alteration: None }),
    {
        ScaleDegree { step: 2, alteration: None }
    }

    /// The third degree.
    #[verifier::allow_in_spec]
    pub fn mediant() -> ScaleDegree
        returns
            (ScaleDegree { step: 3, alteration: None }),
    {
        ScaleDegree { step: 3, alteration: None }
    }

    /// The fourth degree.
    #[verifier::allow_in_spec]
    pub fn subdominant() -> ScaleDegree
        returns
            (ScaleDegree { step: 4, alteration: None }),
    {
        ScaleDegree { step: 4, alteration: None }
    }

    /// The fifth degree.
    #[verifier::allow_in_spec]
    pub fn dominant() -> ScaleDegree
        returns
            (ScaleDegree { step: 5, alteration: None }),
    {
        ScaleDegree { step: 5, alteration: None }
    }

    /// The sixth degree.
    #[verifier::allow_in_spec]
    pub fn submediant() -> ScaleDegree
        returns
            (ScaleDegree { step: 6, alteration: None }),
    {
        ScaleDegree { step: 6, alteration: None }
    }

    /// The seventh degree, as it is called where it lies a semitone below
    /// the tonic.
    #[verifier::allow_in_spec]
    pub fn leading_tone() -> ScaleDegree
        returns
            (ScaleDegree { step: 7, alteration: None }),
    {
        ScaleDegree { step: 7, alteration: None }
    }

    /// The seventh degree, as it is called where it lies a whole tone below
    /// the tonic.
    #[verifier::allow_in_spec]
    pub fn subtonic() -> ScaleDegree
        returns
            (ScaleDegree { step: 7, alteration: None }),
    {
        ScaleDegree { step: 7, alteration: None }
    }

    /// The second degree, lowered.
    #[verifier::allow_in_spec]
    pub fn flat_second() -> ScaleDegree
        returns
            (ScaleDegree { step: 2, alteration: Some(Accidental::Flat) }),
    {
        ScaleDegree { step: 2, alteration: Some(Accidental::Flat) }
    }

    /// The third degree, lowered.
    #[verifier::allow_in_spec]
    pub fn flat_third() -> ScaleDegree
        returns
            (ScaleDegree { step: 3, alteration: Some(Accidental::Flat) }),
    {
        ScaleDegree { step: 3, alteration: Some(Accidental::Flat) }
    }

    /// The fourth degree, raised.
    #[verifier::allow_in_spec]
    pub fn sharp_fourth() -> ScaleDegree
        returns
            (ScaleDegree { step: 4, alteration: Some(Accidental::Sharp) }),
    {
        ScaleDegree { step: 4, alteration: Some(Accidental::Sharp) }
    }

    /// The sixth degree, lowered.
    #[verifier::allow_in_spec]
    pub fn flat_sixth() -> ScaleDegree
        returns
            (ScaleDegree { step: 6, alteration: Some(Accidental::Flat) }),
    {
        ScaleDegree { step: 6, alteration: Some(Accidental::Flat) }
    }

    /// The seventh degree, lowered.
    #[verifier::allow_in_spec]
    pub fn flat_seventh() -> ScaleDegree
        returns
            (ScaleDegree { step: 7, alteration: Some(Accidental::Flat) }),
    {
        ScaleDegree { step: 7, alteration: Some(Accidental::Flat) }
    }

    /// The lowered second degree, under the name it has as the root of the
    /// Neapolitan chord.
    #[verifier::allow_in_spec]
    pub fn neapolitan() -> ScaleDegree
        returns
            (ScaleDegree { step: 2, alteration: Some(Accidental::Flat) }),
    {
        ScaleDegree { step: 2, alteration: Some(Accidental::Flat) }
    }
}

/// The ways in which a note is matched to a note of a scale, in the order in
/// which they are tried. Each way is tried on all the notes of the scale
/// before the next.
#[derive(Debug, Clone, Copy, PartialEq, Eq, Hash, Structural)]
pub enum Tier {
    /// The note is the note of the scale.
    Exact,
    /// The note sounds like the note of the scale.
    Enharmonic,
    /// The note has a flat and lies a semitone below the note of the scale,
    /// or has a sharp and lies a semitone above it.
    OwnAccidental,
    /// The note has the letter of the note of the scale and lies a semitone
    /// from it.
    SameLetter,
    /// The note lies a semitone from the note of the scale.
    Semitone,
    /// The note lies two semitones from the note of the scale.
    WholeTone,
}

/// How many semitones a note sounds above a note of a scale, from 0 to 11.
pub open spec fn semitones_above(note: NoteName, scale_note: NoteName) -> int {
    (note.semitones_from_c() - scale_note.semitones_from_c()) % 12
}

/// Whether a note is matched to a note of a scale in the way of a tier, and
/// if so, with which alteration.
pub open spec fn tier_match(tier: Tier, scale_note: NoteName, note: NoteName) -> Option<
    Option<Accidental>,
> {
    let above = semitones_above(note, scale_note);
    match tier {
        Tier::Exact => if scale_note == note {
            Some(None)
        } else {
            None
        },
        Tier::Enharmonic => if above == 0 {
            Some(None)
        } else {
            None
        },
        Tier::OwnAccidental => if note.accidental() == Accidental::Flat && above == 11 {
            Some(Some(Accidental::Flat))
        } else if note.accidental() == Accidental::Sharp && above == 1 {
            Some(Some(Accidental::Sharp))
        } else {
            None
        },
        Tier::SameLetter => if scale_note.letter() == note.letter() && above == 11 {
            Some(Some(Accidental::Flat))
        } else if scale_note.letter() == note.letter() && above == 1 {
            Some(Some(Accidental::Sharp))
        } else {
            None
        },
        Tier::Semitone => if above == 1 {
            Some(Some(Accidental::Sharp))
        } else if above == 11 {
            Some(Some(Accidental::Flat))
        } else {
            None
        },
        Tier::WholeTone => if above == 2 {
            Some(Some(Accidental::DoubleSharp))
        } else if above == 10 {
            Some(Some(Accidental::DoubleFlat))
        } else {
            None
        },
    }
}

/// Whether the note of the scale at place `i` is the first that a tier
/// matches the note to.
pub open spec fn is_first_match(tier: Tier, notes: Seq<NoteName>, note: NoteName, i: int) -> bool {
    &&& 0 <= i < notes.len()
    &&& tier_match(tier, notes[i], note) is Some
    &&& forall|j: int| 0 <= j < i ==> tier_match(tier, #[trigger] notes[j], note) is None
}

/// The degree that a tier finds for a note: the step of the first note of
/// the scale that the tier matches it to, with the alteration of that match.
pub open spec fn tier_degree(tier: Tier, notes: Seq<NoteName>, note: NoteName) -> Option<
    ScaleDegree,
> {
    if exists|i: int| is_first_match(tier, notes, note, i) {
        let i = choose|i: int| is_first_match(tier, notes, note, i);
        Some(ScaleDegree { step: (i + 1) as u8, alteration: tier_match(tier, notes[i], note)->0 })
    } else {
        None
    }
}

/// The degree of a note among the notes of a scale: what the first tier
/// finds that finds anything.
pub open spec fn resolve(notes: Seq<NoteName>, note: NoteName) -> Option<ScaleDegree> {
    if tier_degree(Tier::Exact, notes, note) is Some {
        tier_degree(Tier::Exact, notes, note)
    } else if tier_degree(Tier::Enharmonic, notes, note) is Some {
        tier_degree(Tier::Enharmonic, notes, note)
    } else if tier_degree(Tier::OwnAccidental, notes, note) is Some {
        tier_degree(Tier::OwnAccidental, notes, note)
    } else if tier_degree(Tier::SameLetter, notes, note) is Some {
        tier_degree(Tier::SameLetter, notes, note)
    } else if tier_degree(Tier::Semitone, notes, note) is Some {
        tier_degree(Tier::Semitone, notes, note)
    } else {
        tier_degree(Tier::WholeTone, notes, note)
    }
}

/// A note of a scale, at the first place where it stands among the notes of
/// the scale, has the step of that place for its degree, unaltered.
pub proof fn lemma_scale_note_has_its_step(notes: Seq<NoteName>, i: int)
    requires
        0 <= i < notes.len(),
        forall|j: int| 0 <= j < i ==> notes[j] != notes[i],
    ensures
        resolve(notes, notes[i]) == Some(ScaleDegree { step: (i + 1) as u8, alteration: None }),
{
    let note = notes[i];
    assert(is_first_match(Tier::Exact, notes, note, i));
    let found = choose|k: int| is_first_match(Tier::Exact, notes, note, k);
    if found < i {
        assert(notes[found] != note);
    } else if i < found {
        assert(tier_match(Tier::Exact, notes[i], note) is None);
    }
}

/// Matches a note to a note of a scale in the way of a tier.
pub fn match_in_tier(tier: Tier, scale_note: NoteName, note: NoteName) -> (r: Option<
    Option<Accidental>,
>)
    requires
        scale_note.is_valid(),
        note.is_valid(),
    ensures
        r == tier_match(tier, scale_note, note),
{
    let above: i32 = wrap_octave(
        note.base_midi_number() as i32 - scale_note.base_midi_number() as i32,
    );
    match tier {
        Tier::Exact => if scale_note == note {
            Some(None)
        } else {
            None
        },
        Tier::Enharmonic => if above == 0 {
            Some(None)
        } else {
            None
        },
        Tier::OwnAccidental => if note.accidental() == Accidental::Flat && above == 11 {
            Some(Some(Accidental::Flat))
        } else if note.accidental() == Accidental::Sharp && above == 1 {
            Some(Some(Accidental::Sharp))
        } else {
            None
        },
        Tier::SameLetter => if scale_note.letter() == note.letter() && above == 11 {
            Some(Some(Accidental::Flat))
        } else if scale_note.letter() == note.letter() && above == 1 {
            Some(Some(Accidental::Sharp))
        } else {
            None
        },
        Tier::Semitone => if above == 1 {
            Some(Some(Accidental::Sharp))
        } else if above == 11 {
            Some(Some(Accidental::Flat))
        } else {
            None
        },
        Tier::WholeTone => if above == 2 {
            Some(Some(Accidental::DoubleSharp))
        } else if above == 10 {
            Some(Some(Accidental::DoubleFlat))
        } else {
            None
        },
    }
}

/// Looks for the first note of a scale that a tier matches a note to.
pub fn find_in_tier(tier: Tier, notes: &[NoteName], note: NoteName) -> (r: Option<ScaleDegree>)
    requires
        notes@.len() <= u8::MAX,
        forall|i: int| 0 <= i < notes@.len() ==> (#[trigger] notes@[i]).is_valid(),
        note.is_valid(),
    ensures
        r == tier_degree(tier, notes@, note),
{
    let mut i: usize = 0;
    while i < notes.len()
        invariant
            i <= notes.len(),
            notes@.len() <= u8::MAX,
            forall|i: int| 0 <= i < notes@.len() ==> (#[trigger] notes@[i]).is_valid(),
            note.is_valid(),
            forall|j: int| 0 <= j < i ==> tier_match(tier, #[trigger] notes@[j], note) is None,
        decreases notes.len() - i,
    {
        match match_in_tier(tier, notes[i], note) {
            Some(alteration) => {
                proof {
                    assert(is_first_match(tier, notes@, note, i as int));
                    let found = choose|k: int| is_first_match(tier, notes@, note, k);
                    if found < i {
                        assert(tier_match(tier, notes@[found], note) is None);
                    } else if found > i {
                        assert(tier_match(tier, notes@[i as int], note) is None);
                    }
                }
                return Some(ScaleDegree::new((i + 1) as u8, alteration));
            },
            None => {},
        }
        i = i + 1;
    }
    proof {
        assert forall|k: int| !is_first_match(tier, notes@, note, k) by {
            if is_first_match(tier, notes@, note, k) {
                assert(tier_match(tier, notes@[k], note) is None);
            }
        }
    }
    None
}

} // verus!
