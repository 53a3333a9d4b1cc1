//! Projectile trajectory integration under gravity and quadratic drag.
//!
//! The simulation advances a kinematic state by fixed-timestep semi-implicit
//! Euler steps and emits one output row per step, stopping when the
//! projectile returns to ground level (or when a caller-supplied step
//! ceiling is reached). Verified code cannot reason about floating-point
//! arithmetic, so every scalar travels as the raw bit pattern of an IEEE-754
//! double (`u64`), the per-step arithmetic itself is a small unverified
//! kernel on the caller's side, and this library holds everything that is
//! decidable on the bit patterns: the configuration defaulting policy
//! ([`config`]), the sign tests that read a height directly from its bits
//! ([`fp`]), and the run itself — which samples are emitted, which are
//! discarded, and when the run ends ([`sim`]).

pub mod config;
pub mod fp;
pub mod sim;
