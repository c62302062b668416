use observed_utility::{
    Entity, FixedScore, KindStore, OnScore, RegistrationGuard, Score, ScorerKind, World,
    SCORE_SCALE,
};

fn spawn_fixed(world: &mut World, store: &mut KindStore<FixedScore>, units: u32) -> Entity {
    let e = world.spawn(Some(Score::default()));
    store.insert(e, FixedScore::new(Score::new(units)));
    e
}

#[test]
fn fixed_scores_its_value() {
    let mut world = World::new();
    let mut store = KindStore::new();
    let e = spawn_fixed(&mut world, &mut store, 500_000);
    assert_eq!(store.react(&OnScore::new(e), &mut world), 1);
    assert_eq!(world.score(e).unwrap().get(), 500_000);
}

#[test]
fn two_entities_score_independently() {
    let mut world = World::new();
    let mut store = KindStore::new();
    let a = spawn_fixed(&mut world, &mut store, 200_000);
    let b = spawn_fixed(&mut world, &mut store, 900_000);
    store.react(&OnScore::new(b), &mut world);
    store.react(&OnScore::new(a), &mut world);
    assert_eq!(world.score(a).unwrap().get(), 200_000);
    assert_eq!(world.score(b).unwrap().get(), 900_000);

    let mut world = World::new();
    let mut store = KindStore::new();
    let b = spawn_fixed(&mut world, &mut store, 900_000);
    let a = spawn_fixed(&mut world, &mut store, 200_000);
    store.react(&OnScore::new(a), &mut world);
    store.react(&OnScore::new(b), &mut world);
    assert_eq!(world.score(a).unwrap().get(), 200_000);
    assert_eq!(world.score(b).unwrap().get(), 900_000);
}

#[test]
fn entity_without_settings_keeps_its_score() {
    let mut world = World::new();
    let mut store: KindStore<FixedScore> = KindStore::new();
    let other = spawn_fixed(&mut world, &mut store, 700_000);
    let e = world.spawn(Some(Score::default()));
    assert_eq!(store.react(&OnScore::new(e), &mut world), 0);
    assert_eq!(world.score(e), Some(Score::default()));
    assert_eq!(world.score(other), Some(Score::default()));
}

#[test]
fn set_value_takes_effect_on_next_trigger() {
    let mut world = World::new();
    let mut store = KindStore::new();
    let e = spawn_fixed(&mut world, &mut store, 300_000);
    store.react(&OnScore::new(e), &mut world);
    assert_eq!(world.score(e).unwrap().get(), 300_000);

    let mut settings = store.get(e).unwrap();
    settings.set_value(Score::new(700_000));
    assert!(!store.insert(e, settings));
    assert_eq!(world.score(e).unwrap().get(), 300_000);
    store.react(&OnScore::new(e), &mut world);
    assert_eq!(world.score(e).unwrap().get(), 700_000);
}

#[test]
fn handler_installed_once_for_many_entities() {
    let mut world = World::new();
    let mut store = KindStore::new();
    assert!(!store.is_registered());
    assert_eq!(store.handlers(), 0);
    let mut entities = Vec::new();
    for n in 0..10u32 {
        entities.push(spawn_fixed(&mut world, &mut store, n * 100_000));
        assert!(store.is_registered());
        assert_eq!(store.handlers(), 1);
    }
    for (n, e) in entities.iter().enumerate() {
        assert_eq!(store.react(&OnScore::new(*e), &mut world), 1);
        assert_eq!(world.score(*e).unwrap().get(), n as u32 * 100_000);
    }
}

#[test]
fn repeated_trigger_keeps_stored_value() {
    let mut world = World::new();
    let mut store = KindStore::new();
    let e = spawn_fixed(&mut world, &mut store, 450_000);
    for _ in 0..3 {
        assert_eq!(store.react(&OnScore::new(e), &mut world), 1);
        assert_eq!(world.score(e).unwrap().get(), 450_000);
    }
}

/// A second kind, used to show that kinds do not reach each other's entities.
#[derive(Clone, Copy)]
struct Halved(FixedScore);

impl ScorerKind for Halved {
    fn spec_score(&self) -> Score {
        self.compute()
    }

    fn compute(&self) -> Score {
        Score::new(self.0.value().get() / 2)
    }
}

#[test]
fn other_kind_leaves_entity_alone() {
    let mut world = World::new();
    let mut fixed = KindStore::new();
    let mut halved = KindStore::new();
    let a = spawn_fixed(&mut world, &mut fixed, 600_000);
    let b = world.spawn(Some(Score::default()));
    halved.insert(b, Halved(FixedScore::new(Score::new(800_000))));
    assert_eq!(halved.handlers(), 1);

    assert_eq!(halved.react(&OnScore::new(a), &mut world), 0);
    assert_eq!(world.score(a), Some(Score::default()));
    assert_eq!(fixed.react(&OnScore::new(a), &mut world), 1);
    assert_eq!(world.score(a).unwrap().get(), 600_000);
    assert_eq!(halved.react(&OnScore::new(a), &mut world), 0);
    assert_eq!(world.score(a).unwrap().get(), 600_000);

    assert_eq!(fixed.react(&OnScore::new(b), &mut world), 0);
    assert_eq!(halved.react(&OnScore::new(b), &mut world), 1);
    assert_eq!(world.score(b).unwrap().get(), 400_000);
}

#[test]
fn entity_without_score_is_not_given_one() {
    let mut world = World::new();
    let mut store = KindStore::new();
    let e = world.spawn(None);
    store.insert(e, FixedScore::new(Score::new(500_000)));
    assert_eq!(store.react(&OnScore::new(e), &mut world), 0);
    assert_eq!(world.score(e), None);
}

#[test]
fn trigger_at_unknown_entity_is_no_op() {
    let mut world = World::new();
    let store: KindStore<FixedScore> = KindStore::new();
    let e = Entity { index: 5 };
    assert!(!world.contains(e));
    assert_eq!(store.react(&OnScore::new(e), &mut world), 0);
    assert_eq!(world.len(), 0);
    assert_eq!(store.get(e), None);
}

#[test]
fn insert_on_distant_index_keeps_others() {
    let mut store = KindStore::new();
    let near = Entity { index: 0 };
    let far = Entity { index: 7 };
    assert!(store.insert(far, FixedScore::new(Score::new(10))));
    assert_eq!(store.get(near), None);
    assert!(store.insert(near, FixedScore::new(Score::new(20))));
    assert_eq!(store.get(far).unwrap().value().get(), 10);
    assert_eq!(store.get(near).unwrap().value().get(), 20);
    assert_eq!(store.handlers(), 1);
}

#[test]
fn score_conversion_clamps() {
    assert_eq!(Score::new(0).get(), 0);
    assert_eq!(Score::new(SCORE_SCALE).get(), SCORE_SCALE);
    assert_eq!(Score::new(SCORE_SCALE + 1).get(), SCORE_SCALE);
    assert_eq!(Score::new(u32::MAX), Score::max_score());
    assert_eq!(Score::default(), Score::min_score());
    assert!(Score::new(200_000) < Score::new(900_000));
}

#[test]
fn fixed_score_accessors() {
    let mut f = FixedScore::new(Score::new(250_000));
    assert_eq!(f.value().get(), 250_000);
    assert_eq!(f.compute().get(), 250_000);
    f.set_value(Score::new(750_000));
    assert_eq!(f.value().get(), 750_000);
    assert_eq!(FixedScore::default().value(), Score::default());
}

#[test]
fn guard_fires_once() {
    let mut guard = RegistrationGuard::new();
    assert!(!guard.is_registered());
    assert!(guard.once());
    assert!(guard.is_registered());
    assert!(!guard.once());
    assert!(!guard.once());
    assert!(guard.is_registered());
}

#[test]
fn trigger_keeps_its_target() {
    let mut world = World::new();
    let e = world.spawn(None);
    let f = world.spawn(None);
    assert_eq!(OnScore::new(f).target(), f);
    assert_ne!(OnScore::new(e).target(), f);
    assert!(world.contains(e));
    assert_eq!(world.len(), 2);
}
