//! Simulation core of a small top-down arcade shooter.
//!
//! The core is a synchronous state-transition system. Its host owns the
//! entities and their real-valued positions, velocities and forces; the core
//! owns the tick clock, the score and every rule that decides what happens
//! to the entities: who collides with whom, when enemies appear, how the
//! player is steered and kept on the playfield. The host hands the core
//! plain facts (which pairs are within reach, which keys are down) and
//! carries out what the core returns.
pub mod clock;
pub mod score;
pub mod collision;
pub mod spawn;
pub mod playfield;
pub mod frame;
pub mod step;
