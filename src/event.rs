//! Entity handles and the trigger that asks an entity to recompute its score.
use vstd::prelude::*;

verus! {

/// An opaque handle of an entity of a [`World`](crate::World): the index of
/// the slot that spawning it filled.
#[derive(Clone, Copy, Debug, PartialEq, Eq, Structural, Hash)]
pub struct Entity {
    pub index: usize,
}

/// The request "recompute your score now", dispatched at one target entity.
/// It carries nothing beyond its target.
#[derive(Clone, Copy, Debug, PartialEq, Eq, Structural)]
pub struct OnScore {
    pub target: Entity,
}

impl OnScore {
    /// A trigger aimed at `target`.
    pub fn new(target: Entity) -> (r: OnScore)
        ensures
            r.target == target,
    {
        OnScore { target }
    }

    /// The entity that this trigger asks to rescore.
    pub fn target(&self) -> (r: Entity)
        ensures
            r == self.target,
    {
        self.target
    }
}

} // verus!
