//! A 2D platformer character controller, written as a pure, backend-free
//! state machine. Each simulation tick the controller takes the outcome of
//! three short collision probes (one below the player, one to each side)
//! together with the tick's key input, updates the persisted contact state
//! (ground contact, wall contact and side, jump eligibility), and decides
//! which velocity command and one-shot jump impulse to hand back to the
//! physics body.
//!
//! The collision casts themselves, rendering, and key polling are the
//! surrounding engine's work; this crate only computes the probes to cast
//! and the decisions to apply, so every rule here is stated in a contract
//! and proved.

pub mod geometry;
pub mod state;
pub mod ground;
pub mod wall;
pub mod motion;
pub mod tick;
