//! The state of one game: two player slots, the result and the winner.
use vstd::prelude::*;
use crate::commitment::{SecretGameMovement, commitment_of};
use crate::movement::{GameMovement, GameResult};
use crate::{AccountId, Secret};

verus! {

/// A filled slot: who joined and the commitment they joined with.
#[derive(Clone, Copy, Debug, PartialEq, Eq)]
pub struct PlayerMovement {
    pub player: AccountId,
    pub movement: SecretGameMovement,
}

impl View for PlayerMovement {
    type V = (AccountId, Seq<u8>);

    open spec fn view(&self) -> (AccountId, Seq<u8>) {
        (self.player, self.movement@)
    }
}

/// The abstract state of a game: each slot as a player and the bytes of
/// their commitment.
pub struct GameView {
    pub player1: Option<(AccountId, Seq<u8>)>,
    pub player2: Option<(AccountId, Seq<u8>)>,
    pub game_result: GameResult,
    pub winner: Option<AccountId>,
}

pub open spec fn slot_view(slot: Option<PlayerMovement>) -> Option<(AccountId, Seq<u8>)> {
    match slot {
        Some(p) => Some(p@),
        None => None,
    }
}

/// `slot` is filled by `player`.
pub open spec fn held_by(slot: Option<(AccountId, Seq<u8>)>, player: AccountId) -> bool {
    slot matches Some(s) && s.0 == player
}

/// A newly created game: both slots empty, not played, no winner.
pub open spec fn empty_game() -> GameView {
    GameView { player1: None, player2: None, game_result: GameResult::NotPlayed, winner: None }
}

impl GameView {
    pub open spec fn has_player(self, player: AccountId) -> bool {
        held_by(self.player1, player) || held_by(self.player2, player)
    }

    pub open spec fn has_free_slots(self) -> bool {
        self.player1 is None || self.player2 is None
    }

    /// The game after `player` takes the first empty slot with `commitment`.
    pub open spec fn with_player(self, player: AccountId, commitment: Seq<u8>) -> GameView {
        if self.player1 is None {
            GameView { player1: Some((player, commitment)), ..self }
        } else {
            GameView { player2: Some((player, commitment)), ..self }
        }
    }

    /// The commitment in the slot that `player` holds.
    pub open spec fn commitment_of_player(self, player: AccountId) -> Seq<u8> {
        match (self.player1, self.player2) {
            (Some(a), _) if a.0 == player => a.1,
            (_, Some(b)) if b.0 == player => b.1,
            _ => Seq::empty(),
        }
    }

    /// The commitment in the slot that `player` does not hold, if that slot
    /// is filled.
    pub open spec fn commitment_of_other(self, player: AccountId) -> Option<Seq<u8>> {
        let other = if held_by(self.player1, player) {
            self.player2
        } else {
            self.player1
        };
        match other {
            Some(o) => Some(o.1),
            None => None,
        }
    }

    /// The invariants of a game: the second slot fills only after the
    /// first, no player holds both slots, a game is resolved only with
    /// both slots filled, and a winner is named exactly for `Win` and `Lose`
    /// and is one of the players.
    pub open spec fn wf(self) -> bool {
        &&& (self.player1 is None ==> self.player2 is None)
        &&& match (self.player1, self.player2) {
            (Some(a), Some(b)) => a.0 != b.0,
            _ => true,
        }
        &&& (self.game_result != GameResult::NotPlayed ==> !self.has_free_slots())
        &&& ((self.game_result == GameResult::Win || self.game_result == GameResult::Lose)
            <==> self.winner is Some)
        &&& (self.winner matches Some(w) ==> self.has_player(w))
    }
}

/// A game as stored in the ledger.
#[derive(Clone, Copy, Debug, PartialEq, Eq)]
pub struct GameState {
    pub player1: Option<PlayerMovement>,
    pub player2: Option<PlayerMovement>,
    pub game_result: GameResult,
    pub winner: Option<AccountId>,
}

impl View for GameState {
    type V = GameView;

    open spec fn view(&self) -> GameView {
        GameView {
            player1: slot_view(self.player1),
            player2: slot_view(self.player2),
            game_result: self.game_result,
            winner: self.winner,
        }
    }
}

impl Default for GameState {
    fn default() -> (r: GameState)
        ensures
            r@ == empty_game(),
    {
        GameState { player1: None, player2: None, game_result: GameResult::NotPlayed, winner: None }
    }
}

impl GameState {
    /// Tells whether `player` holds one of the slots.
    pub fn has_player(&self, player: AccountId) -> (r: bool)
        ensures
            r == self@.has_player(player),
    {
        let mut found = false;
        if let Some(val) = &self.player1 {
            if val.player == player {
                found = true;
            }
        }
        if let Some(val) = &self.player2 {
            if val.player == player {
                found = true;
            }
        }
        found
    }

    /// Tells whether a slot is still empty.
    pub fn has_free_slots(&self) -> (r: bool)
        ensures
            r == self@.has_free_slots(),
    {
        self.player1.is_none() || self.player2.is_none()
    }

    /// Puts `player`, committed to `movement` under `secret`, in the first
    /// empty slot. Returns false, and changes nothing, when both are taken.
    pub fn add_player(&mut self, player: AccountId, movement: GameMovement, secret: Secret) -> (r:
        bool)
        ensures
            r == old(self)@.has_free_slots(),
            r ==> final(self)@ == old(self)@.with_player(player, commitment_of(movement, secret)),
            !r ==> *final(self) == *old(self),
    {
        let player_movement = Some(
            PlayerMovement { player, movement: SecretGameMovement::new(movement, secret) },
        );
        if self.player1.is_none() {
            self.player1 = player_movement;
        } else if self.player2.is_none() {
            self.player2 = player_movement;
        } else {
            return false;
        }
        true
    }

    /// The commitment in the slot that `player` holds.
    pub fn commitment_of_player(&self, player: AccountId) -> (r: Option<SecretGameMovement>)
        ensures
            self@.has_player(player) ==> (r matches Some(c) && c@
                == self@.commitment_of_player(player)),
            !self@.has_player(player) ==> r is None,
    {
        if let Some(val) = &self.player1 {
            if val.player == player {
                return Some(val.movement);
            }
        }
        if let Some(val) = &self.player2 {
            if val.player == player {
                return Some(val.movement);
            }
        }
        None
    }

    /// The commitment in the slot that `player` does not hold, if that slot
    /// is filled.
    pub fn commitment_of_other(&self, player: AccountId) -> (r: Option<SecretGameMovement>)
        ensures
            r matches Some(c) ==> self@.commitment_of_other(player) == Some(c@),
            r is None ==> self@.commitment_of_other(player) is None,
    {
        let other = match &self.player1 {
            Some(val) => if val.player == player {
                self.player2
            } else {
                self.player1
            },
            None => None,
        };
        match other {
            Some(val) => Some(val.movement),
            None => None,
        }
    }
}

} // verus!
