//! A verified two-player arcade rally simulation: paddle and ball motion,
//! axis-aligned collision and scoring, a countdown-gated state machine, and
//! biased ball respawn, all in fixed-point milli-pixel arithmetic.
//!
//! Each tick runs the systems in one fixed order — entity motion, paddle
//! confinement, collision resolution and scoring, the pending state
//! transition, then ball cleanup and respawn — and `tick::tick` proves the
//! world's invariants across the whole frame.

pub mod collision;
pub mod geometry;
pub mod lifecycle;
pub mod motion;
pub mod tick;
pub mod world;
