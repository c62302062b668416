//! The entities of the scoring engine and the score each of them carries.
use vstd::prelude::*;

use crate::event::Entity;
use crate::score::Score;

verus! {

/// The score component of `e` in `scores`, the view of a [`World`]: `None`
/// where it has none or is not an entity of that world.
pub open spec fn score_in(scores: Seq<Option<Score>>, e: Entity) -> Option<Score> {
    if e.index < scores.len() {
        scores[e.index as int]
    } else {
        None
    }
}

/// The score-bearing entities. Every spawned entity keeps its slot for the
/// life of the world; a slot holds the entity's [`Score`] component, if any.
pub struct World {
    scores: Vec<Option<Score>>,
}

impl View for World {
    type V = Seq<Option<Score>>;

    /// The score component of each spawned entity, by index.
    closed spec fn view(&self) -> Seq<Option<Score>> {
        self.scores@
    }
}

impl World {
    /// Whether `e` is an entity of this world.
    pub open spec fn spec_contains(&self, e: Entity) -> bool {
        e.index < self@.len()
    }

    /// The score component of `e`, or `None` where `e` has none or is not
    /// an entity of this world.
    pub open spec fn score_of(&self, e: Entity) -> Option<Score> {
        score_in(self@, e)
    }

    /// A world without entities.
    pub fn new() -> (r: World)
        ensures
            r@ == Seq::<Option<Score>>::empty(),
    {
        World { scores: Vec::new() }
    }

    /// The number of entities spawned so far.
    pub fn len(&self) -> (r: usize)
        ensures
            r == self@.len(),
    {
        self.scores.len()
    }

    /// Spawns an entity carrying `score` as its score component, if given.
    pub fn spawn(&mut self, score: Option<Score>) -> (e: Entity)
        ensures
            final(self)@ == old(self)@.push(score),
            e.index == old(self)@.len(),
    {
        let e = Entity { index: self.scores.len() };
        self.scores.push(score);
        e
    }

    /// Whether `e` is an entity of this world.
    pub fn contains(&self, e: Entity) -> (r: bool)
        ensures
            r == self.spec_contains(e),
    {
        e.index < self.scores.len()
    }

    /// The score component of `e`; `None` where it has none, and where `e`
    /// is not an entity of this world.
    pub fn score(&self, e: Entity) -> (r: Option<Score>)
        ensures
            r == self.score_of(e),
    {
        if e.index < self.scores.len() {
            self.scores[e.index]
        } else {
            None
        }
    }

    /// Overwrites the score component of `e` with `s` where `e` has one, and
    /// tells whether it did. Entities without a score component are left as
    /// they are: a score is only ever replaced, never attached here.
    pub(crate) fn overwrite_score(&mut self, e: Entity, s: Score) -> (written: bool)
        ensures
            written == (old(self).score_of(e) is Some),
            final(self)@ == (if written {
                old(self)@.update(e.index as int, Some(s))
            } else {
                old(self)@
            }),
    {
        if e.index < self.scores.len() && self.scores[e.index].is_some() {
            self.scores.set(e.index, Some(s));
            true
        } else {
            false
        }
    }
}

} // verus!
