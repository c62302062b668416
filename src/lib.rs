//! A utility-AI scoring engine: candidate-action entities carry a [`Score`]
//! that is recomputed when an [`OnScore`] trigger is dispatched at them.
//! Each scorer kind installs its reaction handler lazily, exactly once, the
//! first time an entity receives that kind's settings.
pub mod event;
pub mod fixed;
pub mod guard;
pub mod kind;
pub mod laws;
pub mod score;
pub mod world;

pub use event::{Entity, OnScore};
pub use fixed::FixedScore;
pub use guard::RegistrationGuard;
pub use kind::{KindStore, ScorerKind};
pub use score::{Score, SCORE_SCALE};
pub use world::World;
