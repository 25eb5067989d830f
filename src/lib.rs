//! A two-player rock-paper-scissors game played with a commit-reveal scheme.
//!
//! Players first join a game with a commitment (a hash of their move and a
//! private secret), then both moves are revealed at once, checked against
//! the stored commitments, and the game is resolved exactly once.
use vstd::prelude::*;

pub mod commitment;
pub mod game;
pub mod movement;
pub mod pallet;

pub use commitment::SecretGameMovement;
pub use game::{GameState, PlayerMovement};
pub use movement::{GameMovement, GameResult};
pub use pallet::{Error, Event, Pallet};

verus! {

/// Identifier of a game; the first game created gets `1`.
pub type GameId = u64;

/// The number a player keeps private between joining and revealing.
pub type Secret = u64;

/// Opaque, comparable identifier of a participant.
pub type AccountId = u64;

} // verus!
