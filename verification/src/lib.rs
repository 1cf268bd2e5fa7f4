//! Deterministic rollback-netcode core for a two-player, real-time
//! simulation.
//!
//! The crate keeps independently running peer simulations bit-identical by
//! combining input prediction, speculative execution, per-frame state
//! snapshots, and checksum-based divergence detection.  Network transport,
//! rendering and the physics engine's internals are collaborators outside
//! this crate; everything here is a deterministic function of plain values.
//!
//! Per tick, the data flows: [`input`] (collect and resolve inputs) →
//! [`session`] (connection and peer status) → [`frames`] (advance or roll
//! back) → [`rollback`] (snapshot, restore, resimulate) → [`shim`]
//! (force-invalidate derived state) → [`world`] (the deterministic step) →
//! [`checksum`] (per-frame desync detection) → [`toggle`] (the
//! simulation-time subsystem switch).  [`registry`] carries the allow-list
//! saying what is tracked and checksummed; [`startup`] builds the
//! reference scene.

use vstd::prelude::*;

pub mod checksum;
pub mod frames;
pub mod toggle;
pub mod input;
pub mod registry;
pub mod rollback;
pub mod session;
pub mod shim;
pub mod startup;
pub mod world;

pub use checksum::fletcher16;
pub use input::DecodeError;
pub use input::InputStatus;
pub use input::PlayerInput;
pub use startup::startup;

verus! {

/// Number of participants in the reference design.
pub const NUM_PLAYERS: usize = 2;

/// Fixed simulation tick rate, in ticks per second.
pub const FPS: u64 = 60;

/// Maximum number of frames the simulation may run ahead of the last
/// confirmed frame before it must stall.
pub const MAX_PREDICTION: u64 = 5;

/// Fixed number of frames between a local input event and its application.
pub const INPUT_DELAY: u64 = 3;

/// Initial load period, in seconds, before the stepped subsystem engages.
pub const LOAD_SECONDS: u64 = 1;

} // verus!
