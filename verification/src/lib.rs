//! One discrete physics update for a 2D top-down ball game.
//!
//! Given a snapshot of a ball, an optional court with goal openings, and an
//! ordered set of players, the library validates the snapshot, maps one-shot
//! input (a shoot direction, per-axis movement requests) into velocity
//! overrides, and assembles static geometry and dynamic bodies into the plan
//! of one ephemeral world ([`world`]). An external rigid-body engine advances
//! that world by exactly one fixed timestep under zero gravity; the engine's
//! read-back is decoded back into the caller's state shape ([`codec`]),
//! identity preserved and one-shot fields reset. Nothing outlives a call.
//!
//! All quantities are fixed-point integers ([`state`]), so every rule here
//! is an exact arithmetic statement with a proof; the engine itself works in
//! floats and stays outside, behind the plan/read-back boundary. The laws the
//! library guarantees — pass-through identity, impulse reset, override
//! semantics, determinism — are stated and proved in [`laws`].

pub mod body;
pub mod codec;
pub mod geometry;
pub mod laws;
pub mod state;
pub mod world;
