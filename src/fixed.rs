//! The fixed scorer kind: settings that always score one stored value.
use vstd::prelude::*;

use crate::kind::ScorerKind;
use crate::score::Score;

verus! {

/// Settings of the scorer kind that always scores a fixed value. Changing the
/// value does not touch any entity's score until the next trigger.
#[derive(Clone, Copy, Debug, PartialEq, Eq, Structural)]
pub struct FixedScore {
    value: Score,
}

impl View for FixedScore {
    type V = Score;

    /// The fixed value to score.
    closed spec fn view(&self) -> Score {
        self.value
    }
}

impl FixedScore {
    /// Settings that score `value`.
    pub fn new(value: Score) -> (r: FixedScore)
        ensures
            r@ == value,
    {
        FixedScore { value }
    }

    /// The fixed value to score.
    pub fn value(&self) -> (r: Score)
        ensures
            r == self@,
    {
        self.value
    }

    /// Replaces the fixed value to score.
    pub fn set_value(&mut self, value: Score)
        ensures
            final(self)@ == value,
    {
        self.value = value;
    }
}

impl Default for FixedScore {
    /// Settings that score the minimum.
    fn default() -> (r: FixedScore)
        ensures
            r@@ == 0,
    {
        FixedScore { value: Score::min_score() }
    }
}

impl ScorerKind for FixedScore {
    /// An entity of the fixed kind scores the stored value.
    open spec fn spec_score(&self) -> Score {
        self@
    }

    fn compute(&self) -> (r: Score) {
        self.value()
    }
}

} // verus!
