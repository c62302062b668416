//! What holds of registration and dispatch over every store, world and
//! entity, stated over the views that the operations' contracts use.
use vstd::prelude::*;

use crate::event::Entity;
use crate::fixed::FixedScore;
use crate::kind::{KindStore, ScorerKind};
use crate::score::Score;
use crate::world::score_in;

verus! {

/// However many entities have been given a kind's settings, the kind's
/// handler is installed exactly once, and a trigger aimed at any one of them
/// that carries a score writes that score exactly once, never zero or several
/// times, to what its settings compute.
pub proof fn law_registration_is_idempotent<K: ScorerKind>(
    store: KindStore<K>,
    scores: Seq<Option<Score>>,
    e: Entity,
)
    requires
        store.wf(),
        store.settings_of(e) is Some,
    ensures
        store.spec_registered(),
        store.spec_handlers() == 1,
        score_in(scores, e) is Some ==> store.writes_of(scores, e) == 1,
        score_in(scores, e) is Some ==> score_in(store.after_dispatch(scores, e), e) == Some(
            store.settings_of(e).unwrap().spec_score(),
        ),
{
    let i = e.index as int;
    assert(store.spec_settings()[i] is Some);
}

/// A trigger aimed at `e` changes no other entity's score, through any kind.
pub proof fn law_dispatch_touches_only_target<K: ScorerKind>(
    store: KindStore<K>,
    scores: Seq<Option<Score>>,
    e: Entity,
    other: Entity,
)
    requires
        other != e,
    ensures
        score_in(store.after_dispatch(scores, e), other) == score_in(scores, other),
        store.after_dispatch(scores, e).len() == scores.len(),
{
}

/// An entity that holds kind `A`'s settings and not kind `B`'s is left as it
/// is by `B`'s handlers, installed or not, and gets `A`'s score whichever of
/// the two kinds the trigger reaches first.
pub proof fn law_no_cross_kind_leakage<A: ScorerKind, B: ScorerKind>(
    a: KindStore<A>,
    b: KindStore<B>,
    scores: Seq<Option<Score>>,
    e: Entity,
)
    requires
        a.wf(),
        b.wf(),
        a.settings_of(e) is Some,
        b.settings_of(e) is None,
        score_in(scores, e) is Some,
    ensures
        b.after_dispatch(scores, e) == scores,
        b.writes_of(scores, e) == 0,
        score_in(b.after_dispatch(a.after_dispatch(scores, e), e), e) == Some(
            a.settings_of(e).unwrap().spec_score(),
        ),
        a.after_dispatch(b.after_dispatch(scores, e), e) == b.after_dispatch(
            a.after_dispatch(scores, e),
            e,
        ),
{
    law_registration_is_idempotent(a, scores, e);
}

/// A trigger aimed at an entity that holds no settings of a kind leaves all
/// scores as they are and makes no write through that kind.
pub proof fn law_missing_settings_is_no_op<K: ScorerKind>(
    store: KindStore<K>,
    scores: Seq<Option<Score>>,
    e: Entity,
)
    requires
        store.settings_of(e) is None,
    ensures
        store.after_dispatch(scores, e) == scores,
        store.writes_of(scores, e) == 0,
{
}

/// For the fixed kind, a trigger gives the entity exactly the stored value,
/// and triggering again without a change of settings changes nothing.
pub proof fn law_fixed_dispatch_is_idempotent(
    store: KindStore<FixedScore>,
    scores: Seq<Option<Score>>,
    e: Entity,
    f: FixedScore,
)
    requires
        store.wf(),
        store.settings_of(e) == Some(f),
        score_in(scores, e) is Some,
    ensures
        score_in(store.after_dispatch(scores, e), e) == Some(f@),
        store.after_dispatch(store.after_dispatch(scores, e), e) == store.after_dispatch(scores, e),
{
    law_registration_is_idempotent(store, scores, e);
    let once = store.after_dispatch(scores, e);
    assert(store.after_dispatch(once, e) =~= once);
}

/// For the fixed kind, once the entity's settings are replaced by ones
/// holding `v` (as a `set_value(v)` on its settings gives), the next trigger
/// sets its score to `v`, not to the value that an earlier trigger wrote.
pub proof fn law_fixed_follows_new_value(
    before: KindStore<FixedScore>,
    after: KindStore<FixedScore>,
    scores: Seq<Option<Score>>,
    e: Entity,
    v: Score,
)
    requires
        before.wf(),
        after.wf(),
        before.settings_of(e) is Some,
        after.settings_of(e) is Some,
        after.settings_of(e).unwrap()@ == v,
        score_in(scores, e) is Some,
    ensures
        score_in(before.after_dispatch(scores, e), e) == Some(before.settings_of(e).unwrap()@),
        score_in(after.after_dispatch(before.after_dispatch(scores, e), e), e) == Some(v),
{
    law_registration_is_idempotent(before, scores, e);
    law_registration_is_idempotent(after, before.after_dispatch(scores, e), e);
}

} // verus!
