//! The harmonic function of a chord, read from the degrees of its notes.
use vstd::prelude::*;

use crate::types::ScaleDegree;

verus! {

/// The part that a chord plays in a key.
#[derive(Debug, Clone, Copy, PartialEq, Eq, Structural)]
#[allow(missing_docs)]
pub enum HarmonicFunction {
    Tonic,
    Subdominant,
    Dominant,
}

/// The steps of a list of degrees, without their alterations.
pub open spec fn steps_of(degrees: Seq<ScaleDegree>) -> Seq<u8> {
    Seq::new(degrees.len(), |i: int| degrees[i].step)
}

impl HarmonicFunction {
    /// The steps that speak most for the function.
    pub open spec fn spec_triggers(self) -> Seq<u8> {
        match self {
            HarmonicFunction::Tonic => seq![1u8, 3u8],
            HarmonicFunction::Subdominant => seq![4u8, 6u8],
            HarmonicFunction::Dominant => seq![5u8, 7u8],
        }
    }

    /// The steps that go with the function.
    pub open spec fn spec_associates(self) -> Seq<u8> {
        match self {
            HarmonicFunction::Tonic => seq![5u8, 6u8],
            HarmonicFunction::Subdominant => seq![1u8, 2u8],
            HarmonicFunction::Dominant => seq![2u8],
        }
    }

    /// The steps that are dissonant in the function: each by itself, or only
    /// together with the step named beside it.
    pub open spec fn spec_dissonances(self) -> Seq<(u8, Option<u8>)> {
        match self {
            HarmonicFunction::Tonic => seq![(5u8, Some(6u8)), (7u8, None)],
            HarmonicFunction::Subdominant => seq![(1u8, Some(2u8)), (3u8, None)],
            HarmonicFunction::Dominant => seq![(4u8, None), (6u8, None)],
        }
    }

    /// Whether a step is dissonant in the function, among the given steps.
    pub open spec fn is_dissonant(self, step: u8, steps: Seq<u8>) -> bool {
        exists|i: int|
            0 <= i < self.spec_dissonances().len() && (#[trigger] self.spec_dissonances()[i]).0
                == step && (self.spec_dissonances()[i].1 matches Some(partner)
                ==> steps.contains(partner))
    }

    /// What a step counts for the function: 8 as a trigger, else 4 as an
    /// associate, else 1 as a dissonance, else nothing.
    pub open spec fn points(self, step: u8, steps: Seq<u8>) -> nat {
        if self.spec_triggers().contains(step) {
            8
        } else if self.spec_associates().contains(step) {
            4
        } else if self.is_dissonant(step, steps) {
            1
        } else {
            0
        }
    }

    /// What the first `k` steps count for the function.
    pub open spec fn score(self, steps: Seq<u8>, k: int) -> nat
        decreases k,
    {
        if k <= 0 {
            0
        } else {
            self.score(steps, k - 1) + self.points(steps[k - 1], steps)
        }
    }

    /// The function for which the steps count most, and of several for
    /// which they count alike the last in the order tonic, subdominant,
    /// dominant; none where the steps count for nothing at all.
    pub open spec fn spec_detect(steps: Seq<u8>) -> Option<HarmonicFunction> {
        let tonic = HarmonicFunction::Tonic.score(steps, steps.len() as int);
        let subdominant = HarmonicFunction::Subdominant.score(steps, steps.len() as int);
        let dominant = HarmonicFunction::Dominant.score(steps, steps.len() as int);
        if tonic == 0 && subdominant == 0 && dominant == 0 {
            None
        } else if dominant >= tonic && dominant >= subdominant {
            Some(HarmonicFunction::Dominant)
        } else if subdominant >= tonic {
            Some(HarmonicFunction::Subdominant)
        } else {
            Some(HarmonicFunction::Tonic)
        }
    }

    /// The three functions: tonic, subdominant, dominant.
    pub fn all() -> (r: Vec<HarmonicFunction>)
        ensures
            r@ == seq![
                HarmonicFunction::Tonic,
                HarmonicFunction::Subdominant,
                HarmonicFunction::Dominant,
            ],
    {
        vec![HarmonicFunction::Tonic, HarmonicFunction::Subdominant, HarmonicFunction::Dominant]
    }

    /// The steps that speak most for the function.
    pub fn triggers(&self) -> (r: Vec<u8>)
        ensures
            r@ == self.spec_triggers(),
    {
        match self {
            HarmonicFunction::Tonic => vec![1, 3],
            HarmonicFunction::Subdominant => vec![4, 6],
            HarmonicFunction::Dominant => vec![5, 7],
        }
    }

    /// The steps that go with the function.
    pub fn associates(&self) -> (r: Vec<u8>)
        ensures
            r@ == self.spec_associates(),
    {
        match self {
            HarmonicFunction::Tonic => vec![5, 6],
            HarmonicFunction::Subdominant => vec![1, 2],
            HarmonicFunction::Dominant => vec![2],
        }
    }

    /// The steps that are dissonant in the function: each by itself, or only
    /// together with the step named beside it.
    pub fn dissonances(&self) -> (r: Vec<(u8, Option<u8>)>)
        ensures
            r@ == self.spec_dissonances(),
    {
        match self {
            HarmonicFunction::Tonic => vec![(5, Some(6)), (7, None)],
            HarmonicFunction::Subdominant => vec![(1, Some(2)), (3, None)],
            HarmonicFunction::Dominant => vec![(4, None), (6, None)],
        }
    }

    /// Reads the function of a chord off the degrees of its notes.
    pub fn detect_by_scale_degrees(scale_degrees: &[ScaleDegree]) -> (r: Option<HarmonicFunction>)
        ensures
            r == Self::spec_detect(steps_of(scale_degrees@)),
    {
        let mut steps: Vec<u8> = Vec::new();
        let mut i: usize = 0;
        while i < scale_degrees.len()
            invariant
                i <= scale_degrees.len(),
                steps@ == steps_of(scale_degrees@.take(i as int)),
            decreases scale_degrees.len() - i,
        {
            steps.push(scale_degrees[i].step);
            assert(steps@ =~= steps_of(scale_degrees@.take(i + 1)));
            i = i + 1;
        }
        assert(scale_degrees@.take(i as int) =~= scale_degrees@);
        let tonic = HarmonicFunction::Tonic.total(&steps);
        let subdominant = HarmonicFunction::Subdominant.total(&steps);
        let dominant = HarmonicFunction::Dominant.total(&steps);
        if tonic == 0 && subdominant == 0 && dominant == 0 {
            None
        } else if dominant >= tonic && dominant >= subdominant {
            Some(HarmonicFunction::Dominant)
        } else if subdominant >= tonic {
            Some(HarmonicFunction::Subdominant)
        } else {
            Some(HarmonicFunction::Tonic)
        }
    }

    /// What all the steps count for the function.
    fn total(self, steps: &Vec<u8>) -> (r: u128)
        ensures
            r == self.score(steps@, steps@.len() as int),
    {
        let triggers = self.triggers();
        let associates = self.associates();
        let dissonances = self.dissonances();
        let mut score: u128 = 0;
        let mut i: usize = 0;
        while i < steps.len()
            invariant
                i <= steps.len(),
                triggers@ == self.spec_triggers(),
                associates@ == self.spec_associates(),
                dissonances@ == self.spec_dissonances(),
                score == self.score(steps@, i as int),
                score <= 8 * i,
            decreases steps.len() - i,
        {
            let step = steps[i];
            if has_step(&triggers, step) {
                score = score + 8;
            } else if has_step(&associates, step) {
                score = score + 4;
            } else if self.dissonant(&dissonances, step, steps) {
                score = score + 1;
            }
            i = i + 1;
        }
        score
    }

    /// Whether a step is dissonant in the function, among the given steps.
    fn dissonant(self, dissonances: &Vec<(u8, Option<u8>)>, step: u8, steps: &Vec<u8>) -> (r:
        bool)
        requires
            dissonances@ == self.spec_dissonances(),
        ensures
            r == self.is_dissonant(step, steps@),
    {
        let mut i: usize = 0;
        while i < dissonances.len()
            invariant
                i <= dissonances.len(),
                dissonances@ == self.spec_dissonances(),
                forall|j: int|
                    0 <= j < i ==> !((#[trigger] self.spec_dissonances()[j]).0 == step && (
                    self.spec_dissonances()[j].1 matches Some(partner) ==> steps@.contains(
                        partner,
                    ))),
            decreases dissonances.len() - i,
        {
            let (degree, partner) = dissonances[i];
            if degree == step {
                let together = match partner {
                    None => true,
                    Some(p) => has_step(steps, p),
                };
                if together {
                    return true;
                }
            }
            i = i + 1;
        }
        false
    }
}

/// Whether a step is in a list of steps.
pub fn has_step(steps: &Vec<u8>, step: u8) -> (r: bool)
    ensures
        r == steps@.contains(step),
{
    let mut i: usize = 0;
    while i < steps.len()
        invariant
            i <= steps.len(),
            forall|j: int| 0 <= j < i ==> steps@[j] != step,
        decreases steps.len() - i,
    {
        if steps[i] == step {
            return true;
        }
        i = i + 1;
    }
    false
}

} // verus!
