//! The protocol that plugs a scorer kind into trigger dispatch: per-kind
//! settings storage, the lazily installed reaction handler, and dispatch.
use vstd::prelude::*;

use crate::event::{Entity, OnScore};
use crate::guard::RegistrationGuard;
use crate::score::Score;
use crate::world::{score_in, World};

verus! {

/// A scorer kind: settings that say how to compute a [`Score`] for an entity
/// that holds them.
pub trait ScorerKind: Copy + Sized {
    /// The score that these settings give their entity.
    spec fn spec_score(&self) -> Score;

    /// Computes the score that these settings give their entity.
    fn compute(&self) -> (r: Score)
        ensures
            r == self.spec_score(),
    ;
}

/// The settings component of one scorer kind `K` across all entities, the
/// kind's registration marker, and the number of reaction handlers of the
/// kind that are installed into trigger dispatch.
pub struct KindStore<K> {
    settings: Vec<Option<K>>,
    guard: RegistrationGuard,
    handlers: usize,
}

impl<K: ScorerKind> KindStore<K> {
    /// The settings component of each entity, by index, for the indices seen
    /// so far.
    pub closed spec fn spec_settings(&self) -> Seq<Option<K>> {
        self.settings@
    }

    /// Whether the kind's registration marker exists.
    pub closed spec fn spec_registered(&self) -> bool {
        self.guard.is_set()
    }

    /// How many reaction handlers of this kind are installed.
    pub closed spec fn spec_handlers(&self) -> nat {
        self.handlers as nat
    }

    /// The settings component of `e`, if it has one.
    pub open spec fn settings_of(&self, e: Entity) -> Option<K> {
        if e.index < self.spec_settings().len() {
            self.spec_settings()[e.index as int]
        } else {
            None
        }
    }

    /// The handler is installed exactly when the marker exists, and then
    /// once; an entity holds this kind's settings only once the marker exists.
    pub open spec fn wf(&self) -> bool {
        &&& self.spec_handlers() == (if self.spec_registered() { 1nat } else { 0nat })
        &&& forall|i: int|
            0 <= i < self.spec_settings().len() && (#[trigger] self.spec_settings()[i]) is Some
                ==> self.spec_registered()
    }

    /// Whether the handler of this kind, reached by a trigger aimed at `e`,
    /// finds both components it needs on `e` within `scores`.
    pub open spec fn handles(&self, scores: Seq<Option<Score>>, e: Entity) -> bool {
        score_in(scores, e) is Some && self.settings_of(e) is Some
    }

    /// How many score writes a trigger aimed at `e` makes through this kind:
    /// one per installed handler where the handler finds what it needs.
    pub open spec fn writes_of(&self, scores: Seq<Option<Score>>, e: Entity) -> nat {
        if self.handles(scores, e) {
            self.spec_handlers()
        } else {
            0
        }
    }

    /// The scores after a trigger aimed at `e` has reached this kind's
    /// handlers: `e`'s score becomes what its settings compute, where a
    /// handler is installed and finds both components; else nothing changes.
    pub open spec fn after_dispatch(&self, scores: Seq<Option<Score>>, e: Entity) -> Seq<Option<Score>> {
        if self.spec_handlers() > 0 && self.handles(scores, e) {
            scores.update(e.index as int, Some(self.settings_of(e).unwrap().spec_score()))
        } else {
            scores
        }
    }

    /// A store in which no entity holds this kind and no handler is
    /// installed.
    pub fn new() -> (r: KindStore<K>)
        ensures
            r.wf(),
            r.spec_settings() == Seq::<Option<K>>::empty(),
            !r.spec_registered(),
            r.spec_handlers() == 0,
    {
        KindStore { settings: Vec::new(), guard: RegistrationGuard::new(), handlers: 0 }
    }

    /// Whether the kind's registration marker exists.
    pub fn is_registered(&self) -> (r: bool)
        ensures
            r == self.spec_registered(),
    {
        self.guard.is_registered()
    }

    /// How many reaction handlers of this kind are installed.
    pub fn handlers(&self) -> (r: usize)
        ensures
            r == self.spec_handlers(),
    {
        self.handlers
    }

    /// The settings component of `e`, if it has one.
    pub fn get(&self, e: Entity) -> (r: Option<K>)
        ensures
            r == self.settings_of(e),
    {
        if e.index < self.settings.len() {
            match &self.settings[e.index] {
                Some(k) => Some(*k),
                None => None,
            }
        } else {
            None
        }
    }

    /// The hook that runs when an entity first receives this kind's settings:
    /// on the first run it creates the marker and installs the handler; on
    /// later runs it does nothing.
    fn on_add(&mut self)
        requires
            old(self).wf(),
        ensures
            final(self).spec_settings() == old(self).spec_settings(),
            final(self).spec_registered(),
            final(self).spec_handlers() == 1,
    {
        if self.guard.once() {
            self.handlers = self.handlers + 1;
        }
    }

    /// Gives `e` the settings `k`, replacing those it held. Where `e` did not
    /// hold this kind before, the kind's add hook runs, which installs the
    /// handler on the kind's first use. Returns whether `e` newly got the kind.
    pub fn insert(&mut self, e: Entity, k: K) -> (added: bool)
        requires
            old(self).wf(),
            e.index < usize::MAX,
        ensures
            final(self).wf(),
            added == (old(self).settings_of(e) is None),
            final(self).settings_of(e) == Some(k),
            forall|x: Entity| x != e ==> #[trigger] final(self).settings_of(x) == old(self).settings_of(x),
            final(self).spec_registered(),
            final(self).spec_handlers() == 1,
            old(self).spec_registered() ==> final(self).spec_handlers() == old(self).spec_handlers(),
    {
        while self.settings.len() <= e.index
            invariant
                old(self).wf(),
                self.guard == old(self).guard,
                self.handlers == old(self).handlers,
                old(self).settings@.len() <= self.settings@.len(),
                forall|i: int| 0 <= i < old(self).settings@.len() ==> self.settings@[i] == old(self).settings@[i],
                forall|i: int| old(self).settings@.len() <= i < self.settings@.len() ==> self.settings@[i] is None,
            decreases e.index + 1 - self.settings.len(),
        {
            self.settings.push(None);
        }
        let added = self.settings[e.index].is_none();
        if added {
            self.on_add();
        }
        self.settings.set(e.index, Some(k));
        assert(forall|x: Entity| x != e ==> #[trigger] self.settings_of(x) == old(self).settings_of(x));
        added
    }

    /// The reaction handler of this kind: where the trigger's target holds
    /// both a score and this kind's settings, overwrites the score with what
    /// the settings compute and returns `true`; otherwise does nothing.
    pub fn observer(&self, trigger: &OnScore, world: &mut World) -> (written: bool)
        ensures
            written == self.handles(old(world)@, trigger.target),
            final(world)@ == (if written {
                old(world)@.update(
                    trigger.target.index as int,
                    Some(self.settings_of(trigger.target).unwrap().spec_score()),
                )
            } else {
                old(world)@
            }),
    {
        let target = trigger.target();
        let settings = match self.get(target) {
            Some(k) => k,
            None => return false,
        };
        world.overwrite_score(target, settings.compute())
    }

    /// Delivers `trigger` to every installed handler of this kind, each
    /// once, and returns how many score writes they made.
    pub fn react(&self, trigger: &OnScore, world: &mut World) -> (writes: usize)
        requires
            self.wf(),
        ensures
            writes == self.writes_of(old(world)@, trigger.target),
            final(world)@ == self.after_dispatch(old(world)@, trigger.target),
    {
        let mut writes: usize = 0;
        let mut i: usize = 0;
        while i < self.handlers
            invariant
                self.wf(),
                i <= self.handlers,
                writes == (if self.handles(old(world)@, trigger.target) { i as nat } else { 0 }),
                world@ == (if i > 0 { self.after_dispatch(old(world)@, trigger.target) } else { old(world)@ }),
            decreases self.handlers - i,
        {
            if self.observer(trigger, world) {
                writes = writes + 1;
            }
            i = i + 1;
        }
        writes
    }
}

} // verus!
