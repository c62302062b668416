//! The bounded desirability value shared by every scorer kind.
use vstd::prelude::*;

verus! {

/// Fixed-point units that make up a full score: a [`Score`] of `SCORE_SCALE`
/// units stands for 1, one of `0` units for 0.
pub const SCORE_SCALE: u32 = 1_000_000;

/// A desirability value in `[0, 1]`, held as a count of `1 / SCORE_SCALE`
/// units. Equality and ordering go by the value; the default is the minimum.
#[derive(Clone, Copy, Debug, PartialEq, Eq, Structural, PartialOrd, Ord, Hash)]
pub struct Score {
    units: u32,
}

impl View for Score {
    type V = nat;

    /// The score in units of `1 / SCORE_SCALE`.
    closed spec fn view(&self) -> nat {
        self.units as nat
    }
}

/// The value that converting `units` into a score keeps: values above the
/// scale are clamped to a full score.
pub open spec fn clamp_units(units: int) -> nat {
    if units <= SCORE_SCALE {
        units as nat
    } else {
        SCORE_SCALE as nat
    }
}

impl Score {
    #[verifier::type_invariant]
    spec fn bounded(self) -> bool {
        self.units <= SCORE_SCALE
    }

    /// The score of `units` units of `1 / SCORE_SCALE`, clamped to `[0, 1]`.
    pub fn new(units: u32) -> (r: Score)
        ensures
            r@ == clamp_units(units as int),
    {
        if units <= SCORE_SCALE {
            Score { units }
        } else {
            Score { units: SCORE_SCALE }
        }
    }

    /// The lowest score, 0.
    pub fn min_score() -> (r: Score)
        ensures
            r@ == 0,
    {
        Score { units: 0 }
    }

    /// The highest score, 1.
    pub fn max_score() -> (r: Score)
        ensures
            r@ == SCORE_SCALE,
    {
        Score { units: SCORE_SCALE }
    }

    /// The score as a count of `1 / SCORE_SCALE` units.
    pub fn get(&self) -> (r: u32)
        ensures
            r == self@,
            r <= SCORE_SCALE,
    {
        proof {
            use_type_invariant(self);
        }
        self.units
    }
}

impl Default for Score {
    /// The minimum score, 0.
    fn default() -> (r: Score)
        ensures
            r@ == 0,
    {
        Score { units: 0 }
    }
}

} // verus!
