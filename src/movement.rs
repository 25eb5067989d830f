//! Moves, game results and the resolution rule.
use vstd::prelude::*;

verus! {

/// A move of the game.
#[derive(Clone, Copy, Debug, PartialEq, Eq, Structural)]
pub enum GameMovement {
    Rock,
    Paper,
    Scissors,
}

/// The result of a game, seen from the first of the two revealed players:
/// `Win` means that player won, `Lose` means the other one did.
#[derive(Clone, Copy, Debug, PartialEq, Eq, Structural)]
pub enum GameResult {
    NotPlayed,
    Win,
    Lose,
    Draw,
}

/// `a` beats `b`: rock beats scissors, scissors beats paper, paper beats rock.
pub open spec fn beats(a: GameMovement, b: GameMovement) -> bool {
    ||| a is Rock && b is Scissors
    ||| a is Scissors && b is Paper
    ||| a is Paper && b is Rock
}

/// The result of playing `a` against `b`.
pub open spec fn outcome(a: GameMovement, b: GameMovement) -> GameResult {
    if a == b {
        GameResult::Draw
    } else if beats(a, b) {
        GameResult::Win
    } else {
        GameResult::Lose
    }
}

/// The same result seen from the other player.
pub open spec fn swapped(r: GameResult) -> GameResult {
    match r {
        GameResult::Win => GameResult::Lose,
        GameResult::Lose => GameResult::Win,
        _ => r,
    }
}

/// The one-byte tag that stands for a move in a commitment.
pub open spec fn move_tag(m: GameMovement) -> u8 {
    match m {
        GameMovement::Rock => 1,
        GameMovement::Paper => 2,
        GameMovement::Scissors => 3,
    }
}

impl GameMovement {
    /// Tells whether this move wins, loses or draws against `other`.
    pub fn play(&self, other: GameMovement) -> (r: GameResult)
        ensures
            r == outcome(*self, other),
    {
        match self {
            GameMovement::Rock => match other {
                GameMovement::Rock => GameResult::Draw,
                GameMovement::Paper => GameResult::Lose,
                GameMovement::Scissors => GameResult::Win,
            },
            GameMovement::Paper => match other {
                GameMovement::Rock => GameResult::Win,
                GameMovement::Paper => GameResult::Draw,
                GameMovement::Scissors => GameResult::Lose,
            },
            GameMovement::Scissors => match other {
                GameMovement::Rock => GameResult::Lose,
                GameMovement::Paper => GameResult::Win,
                GameMovement::Scissors => GameResult::Draw,
            },
        }
    }

    /// The byte encoding of this move: `1`, `2` or `3`.
    pub fn to_bytes(&self) -> (r: [u8; 1])
        ensures
            r@ == seq![move_tag(*self)],
    {
        let r: [u8; 1] = match self {
            GameMovement::Rock => [1u8],
            GameMovement::Paper => [2u8],
            GameMovement::Scissors => [3u8],
        };
        assert(r@ =~= seq![move_tag(*self)]);
        r
    }
}

/// The resolution rule is total and forms a cycle of dominance: it never
/// yields `NotPlayed`, a move against itself is a draw, rock beats scissors,
/// scissors beats paper and paper beats rock, of two different moves exactly
/// one beats the other, and swapping the players swaps `Win` and `Lose`.
pub proof fn lemma_resolution_is_cyclic(a: GameMovement, b: GameMovement)
    ensures
        outcome(a, b) != GameResult::NotPlayed,
        outcome(a, a) == GameResult::Draw,
        beats(GameMovement::Rock, GameMovement::Scissors),
        beats(GameMovement::Scissors, GameMovement::Paper),
        beats(GameMovement::Paper, GameMovement::Rock),
        a != b ==> (beats(a, b) != beats(b, a)),
        a == b ==> !beats(a, b),
        outcome(b, a) == swapped(outcome(a, b)),
        outcome(a, b) == GameResult::Win <==> beats(a, b),
        outcome(a, b) == GameResult::Lose <==> beats(b, a),
{
}

} // verus!
