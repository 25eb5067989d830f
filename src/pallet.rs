//! The ledger of games and the three operations on it: create a game, join
//! it with a committed move, and reveal both moves to resolve it.
use vstd::prelude::*;
use crate::commitment::{commitment_of, verifies};
use crate::game::{GameState, GameView, empty_game};
use crate::movement::{GameMovement, GameResult, lemma_resolution_is_cyclic, outcome};
use crate::{AccountId, GameId, Secret};

verus! {

/// Why an operation was refused. A refused operation changes nothing.
#[derive(Clone, Copy, Debug, PartialEq, Eq, Structural)]
pub enum Error {
    /// No more game identifiers can be allocated.
    StorageOverflow,
    /// Game with given id not found.
    GameNotFound,
    /// Tried to join a game which already has all players.
    GameIsFull,
    /// The player is already in the game.
    PlayerAlreadyInGame,
    /// Player not found in a game.
    PlayerNotInGame,
    /// The commitment does not match the revealed move and secret.
    InvalidHash,
    /// The player cannot cover the stake.
    InsufficientBalance,
}

/// What a successful operation announces.
#[derive(Clone, Copy, Debug, PartialEq, Eq, Structural)]
pub enum Event {
    GameCreated(GameId),
    /// Carries who moved, never the move or the secret.
    PlayerMadeMovement(AccountId),
    GameFinished(GameId, GameResult, Option<AccountId>),
}

/// The game stored under `id`: game `k` is the `k`-th one created.
pub open spec fn lookup(games: Seq<GameView>, id: GameId) -> Option<GameView> {
    if 1 <= id <= games.len() {
        Some(games[id - 1])
    } else {
        None
    }
}

/// Every stored game keeps the invariants of a game.
pub open spec fn ledger_wf(games: Seq<GameView>) -> bool {
    forall|i: int| 0 <= i < games.len() ==> (#[trigger] games[i]).wf()
}

/// Creating a game: the next identifier and an empty game, unless the
/// identifiers are exhausted.
pub open spec fn create_spec(games: Seq<GameView>) -> (Result<Event, Error>, Seq<GameView>) {
    if games.len() >= u64::MAX {
        (Err(Error::StorageOverflow), games)
    } else {
        (Ok(Event::GameCreated((games.len() + 1) as u64)), games.push(empty_game()))
    }
}

/// Joining game `id` as `player` with `movement` under `secret`, staking
/// `bet_amount` out of `free_balance`.
pub open spec fn join_spec(
    games: Seq<GameView>,
    player: AccountId,
    id: GameId,
    movement: GameMovement,
    secret: Secret,
    bet_amount: u64,
    free_balance: u64,
) -> (Result<Event, Error>, Seq<GameView>) {
    match lookup(games, id) {
        None => (Err(Error::GameNotFound), games),
        Some(g) => if !g.has_free_slots() {
            (Err(Error::GameIsFull), games)
        } else if g.has_player(player) {
            (Err(Error::PlayerAlreadyInGame), games)
        } else if free_balance < bet_amount {
            (Err(Error::InsufficientBalance), games)
        } else {
            (
                Ok(Event::PlayerMadeMovement(player)),
                games.update(id - 1, g.with_player(player, commitment_of(movement, secret))),
            )
        },
    }
}

/// The winner named by a fresh result between `player1` and `player2`.
pub open spec fn winner_of(r: GameResult, player1: AccountId, player2: AccountId) -> Option<
    AccountId,
> {
    match r {
        GameResult::Win => Some(player1),
        GameResult::Lose => Some(player2),
        _ => None,
    }
}

/// The first pair opens the slot that `player` holds, and the second pair
/// opens the other slot, which is filled.
pub open spec fn opens_both(
    g: GameView,
    player: AccountId,
    movement1: GameMovement,
    secret1: Secret,
    movement2: GameMovement,
    secret2: Secret,
) -> bool {
    &&& verifies(g.commitment_of_player(player), movement1, secret1)
    &&& g.commitment_of_other(player) matches Some(c) && verifies(c, movement2, secret2)
}

/// Revealing game `id`: `player1` (the caller) and `player2` must both hold
/// a slot. The caller shows the move and secret behind its own slot, then
/// those behind the other slot. A resolved game announces its stored result
/// again. An unresolved game is resolved only when `player2` holds that
/// other slot: a player naming itself cannot resolve a game alone, and its
/// second pair is taken not to open the other player's commitment.
pub open spec fn reveal_spec(
    games: Seq<GameView>,
    player1: AccountId,
    id: GameId,
    movement1: GameMovement,
    secret1: Secret,
    player2: AccountId,
    movement2: GameMovement,
    secret2: Secret,
) -> (Result<Event, Error>, Seq<GameView>) {
    match lookup(games, id) {
        None => (Err(Error::GameNotFound), games),
        Some(g) => if !g.has_player(player1) || !g.has_player(player2) {
            (Err(Error::PlayerNotInGame), games)
        } else if !opens_both(g, player1, movement1, secret1, movement2, secret2) {
            (Err(Error::InvalidHash), games)
        } else if g.game_result != GameResult::NotPlayed {
            (Ok(Event::GameFinished(id, g.game_result, g.winner)), games)
        } else if player1 == player2 {
            (Err(Error::InvalidHash), games)
        } else {
            let r = outcome(movement1, movement2);
            let w = winner_of(r, player1, player2);
            (
                Ok(Event::GameFinished(id, r, w)),
                games.update(id - 1, GameView { game_result: r, winner: w, ..g }),
            )
        },
    }
}

proof fn lemma_update_keeps_wf(games: Seq<GameView>, i: int, g: GameView)
    requires
        ledger_wf(games),
        0 <= i < games.len(),
        g.wf(),
    ensures
        ledger_wf(games.update(i, g)),
{
    assert forall|j: int| 0 <= j < games.len() implies (#[trigger] games.update(i, g)[j]).wf() by {
        if j != i {
            assert(games.update(i, g)[j] == games[j]);
        }
    }
}

/// The ledger: the counter of game identifiers and the games created so far.
#[derive(Clone, Debug, PartialEq, Eq)]
pub struct Pallet {
    next_game_id: u64,
    games: Vec<GameState>,
}

impl View for Pallet {
    type V = Seq<GameView>;

    closed spec fn view(&self) -> Seq<GameView> {
        self.games@.map_values(|g: GameState| g@)
    }
}

impl Pallet {
    /// The counter matches the number of games, and every game is well formed.
    pub closed spec fn wf(&self) -> bool {
        &&& self.next_game_id == self.games@.len()
        &&& ledger_wf(self@)
    }

    /// An empty ledger.
    pub fn new() -> (r: Pallet)
        ensures
            r.wf(),
            ledger_wf(r@),
            r@ == Seq::<GameView>::empty(),
    {
        let r = Pallet { next_game_id: 0, games: Vec::new() };
        assert(r@ =~= Seq::<GameView>::empty());
        r
    }

    /// The identifier of the last game created (0 when there is none).
    pub fn next_challenge_id(&self) -> (r: GameId)
        requires
            self.wf(),
        ensures
            r == self@.len(),
    {
        self.next_game_id
    }

    /// The game stored under `game_id`, if any.
    pub fn games(&self, game_id: GameId) -> (r: Option<GameState>)
        requires
            self.wf(),
        ensures
            r is Some <==> lookup(self@, game_id) is Some,
            r matches Some(g) ==> lookup(self@, game_id) == Some(g@),
    {
        if game_id >= 1 && game_id <= self.next_game_id {
            let n = self.games.len();
            assert(game_id - 1 < n);
            let idx = (game_id - 1) as usize;
            Some(self.games[idx])
        } else {
            None
        }
    }

    /// Allocates the next identifier and stores an empty game under it.
    pub fn create_game(&mut self) -> (r: Result<Event, Error>)
        requires
            old(self).wf(),
        ensures
            final(self).wf(),
            ledger_wf(final(self)@),
            (r, final(self)@) == create_spec(old(self)@),
    {
        if self.next_game_id == u64::MAX {
            return Err(Error::StorageOverflow);
        }
        self.next_game_id = self.next_game_id + 1;
        self.games.push(GameState::default());
        assert(self@ =~= create_spec(old(self)@).1);
        assert(empty_game().wf());
        assert(forall|i: int| 0 <= i < self@.len() ==> #[trigger] self@[i] == if i < old(self)@.len() { old(self)@[i] } else { empty_game() });
        Ok(Event::GameCreated(self.next_game_id))
    }

    /// `origin` joins game `game_id` with a commitment to `movement` under
    /// `secret`, staking `bet_amount`; `free_balance` is what the origin can
    /// spend, as the balance service reports it.
    pub fn play_game(
        &mut self,
        origin: AccountId,
        game_id: GameId,
        movement: GameMovement,
        secret: Secret,
        bet_amount: u64,
        free_balance: u64,
    ) -> (r: Result<Event, Error>)
        requires
            old(self).wf(),
        ensures
            final(self).wf(),
            ledger_wf(final(self)@),
            (r, final(self)@) == join_spec(
                old(self)@,
                origin,
                game_id,
                movement,
                secret,
                bet_amount,
                free_balance,
            ),
    {
        if game_id < 1 || game_id > self.next_game_id {
            return Err(Error::GameNotFound);
        }
        let n = self.games.len();
        assert(game_id - 1 < n);
        let idx = (game_id - 1) as usize;
        let mut game_state = self.games[idx];
        assert(self@[idx as int] == game_state@);
        if !game_state.has_free_slots() {
            return Err(Error::GameIsFull);
        }
        if game_state.has_player(origin) {
            return Err(Error::PlayerAlreadyInGame);
        }
        if free_balance < bet_amount {
            return Err(Error::InsufficientBalance);
        }
        game_state.add_player(origin, movement, secret);
        self.games[idx] = game_state;
        proof {
            assert(self@ =~= old(self)@.update(idx as int, game_state@));
            lemma_update_keeps_wf(old(self)@, idx as int, game_state@);
        }
        Ok(Event::PlayerMadeMovement(origin))
    }

    /// `origin` reveals game `game_id`: the move and secret behind its own
    /// slot, and those behind the slot of `player2`. On the first valid
    /// reveal the game is resolved; later ones announce the stored result.
    pub fn reveal_winner(
        &mut self,
        origin: AccountId,
        game_id: GameId,
        player1_movement: GameMovement,
        player1_secret: Secret,
        player2: AccountId,
        player2_movement: GameMovement,
        player2_secret: Secret,
    ) -> (r: Result<Event, Error>)
        requires
            old(self).wf(),
        ensures
            final(self).wf(),
            ledger_wf(final(self)@),
            (r, final(self)@) == reveal_spec(
                old(self)@,
                origin,
                game_id,
                player1_movement,
                player1_secret,
                player2,
                player2_movement,
                player2_secret,
            ),
    {
        if game_id < 1 || game_id > self.next_game_id {
            return Err(Error::GameNotFound);
        }
        let n = self.games.len();
        assert(game_id - 1 < n);
        let idx = (game_id - 1) as usize;
        let mut game_state = self.games[idx];
        assert(self@[idx as int] == game_state@);
        if !game_state.has_player(origin) || !game_state.has_player(player2) {
            return Err(Error::PlayerNotInGame);
        }
        let own = match game_state.commitment_of_player(origin) {
            Some(c) => c,
            None => {
                return Err(Error::PlayerNotInGame);
            },
        };
        let other = match game_state.commitment_of_other(origin) {
            Some(c) => c,
            None => {
                return Err(Error::InvalidHash);
            },
        };
        if !own.is_equal(player1_movement, player1_secret) || !other.is_equal(
            player2_movement,
            player2_secret,
        ) {
            return Err(Error::InvalidHash);
        }
        if game_state.game_result != GameResult::NotPlayed {
            return Ok(Event::GameFinished(game_id, game_state.game_result, game_state.winner));
        }
        if origin == player2 {
            return Err(Error::InvalidHash);
        }
        let game_result = player1_movement.play(player2_movement);
        let winner = match game_result {
            GameResult::Win => Some(origin),
            GameResult::Lose => Some(player2),
            _ => None,
        };
        game_state.game_result = game_result;
        game_state.winner = winner;
        self.games[idx] = game_state;
        proof {
            assert(self@ =~= old(self)@.update(idx as int, game_state@));
            lemma_resolution_is_cyclic(player1_movement, player2_movement);
            lemma_update_keeps_wf(old(self)@, idx as int, game_state@);
        }
        Ok(Event::GameFinished(game_id, game_result, winner))
    }
}

} // verus!

verus! {

/// Revealing is idempotent: after a reveal succeeds, the same reveal again
/// announces the same result and winner and leaves the ledger unchanged.
pub proof fn lemma_reveal_idempotent(
    games: Seq<GameView>,
    player1: AccountId,
    id: GameId,
    movement1: GameMovement,
    secret1: Secret,
    player2: AccountId,
    movement2: GameMovement,
    secret2: Secret,
)
    requires
        reveal_spec(games, player1, id, movement1, secret1, player2, movement2, secret2).0 is Ok,
    ensures
        ({
            let (r1, after1) = reveal_spec(
                games,
                player1,
                id,
                movement1,
                secret1,
                player2,
                movement2,
                secret2,
            );
            reveal_spec(after1, player1, id, movement1, secret1, player2, movement2, secret2) == (
            r1, after1)
        }),
{
    lemma_resolution_is_cyclic(movement1, movement2);
}

/// A game takes two players: after two joins of one game succeed, any
/// further join of it fails with `GameIsFull` and changes nothing.
pub proof fn lemma_third_join_fails(
    games: Seq<GameView>,
    id: GameId,
    player1: AccountId,
    movement1: GameMovement,
    secret1: Secret,
    bet1: u64,
    balance1: u64,
    player2: AccountId,
    movement2: GameMovement,
    secret2: Secret,
    bet2: u64,
    balance2: u64,
    player3: AccountId,
    movement3: GameMovement,
    secret3: Secret,
    bet3: u64,
    balance3: u64,
)
    requires
        join_spec(games, player1, id, movement1, secret1, bet1, balance1).0 is Ok,
        join_spec(
            join_spec(games, player1, id, movement1, secret1, bet1, balance1).1,
            player2,
            id,
            movement2,
            secret2,
            bet2,
            balance2,
        ).0 is Ok,
    ensures
        ({
            let after1 = join_spec(games, player1, id, movement1, secret1, bet1, balance1).1;
            let after2 = join_spec(after1, player2, id, movement2, secret2, bet2, balance2).1;
            join_spec(after2, player3, id, movement3, secret3, bet3, balance3) == (
            Err::<Event, Error>(Error::GameIsFull), after2)
        }),
{
}

/// A player who holds a slot of a game cannot join it again: the join
/// fails, with `PlayerAlreadyInGame` while a slot is free, and changes
/// nothing.
pub proof fn lemma_no_self_join(
    games: Seq<GameView>,
    id: GameId,
    player: AccountId,
    movement: GameMovement,
    secret: Secret,
    bet_amount: u64,
    free_balance: u64,
)
    requires
        lookup(games, id) matches Some(g) && g.has_player(player),
    ensures
        ({
            let (r, after) = join_spec(games, player, id, movement, secret, bet_amount, free_balance);
            &&& r is Err
            &&& after == games
            &&& lookup(games, id)->0.has_free_slots() ==> r == Err::<Event, Error>(
                Error::PlayerAlreadyInGame,
            )
        }),
{
}

} // verus!

verus! {

/// The refusals of a reveal: `PlayerNotInGame` comes exactly when a named
/// player holds no slot; when two different players hold the slots and a
/// pair does not open the commitment of the player who supplied it, the
/// reveal fails with `InvalidHash`; a refused reveal changes nothing.
pub proof fn lemma_reveal_refusals(
    games: Seq<GameView>,
    player1: AccountId,
    id: GameId,
    movement1: GameMovement,
    secret1: Secret,
    player2: AccountId,
    movement2: GameMovement,
    secret2: Secret,
)
    requires
        ledger_wf(games),
        lookup(games, id) is Some,
    ensures
        ({
            let g = lookup(games, id)->0;
            let (r, after) = reveal_spec(
                games,
                player1,
                id,
                movement1,
                secret1,
                player2,
                movement2,
                secret2,
            );
            &&& r == Err::<Event, Error>(Error::PlayerNotInGame) <==> !(g.has_player(player1)
                && g.has_player(player2))
            &&& (g.has_player(player1) && g.has_player(player2) && player1 != player2 && !(
            verifies(g.commitment_of_player(player1), movement1, secret1) && verifies(
                g.commitment_of_player(player2),
                movement2,
                secret2,
            ))) ==> r == Err::<Event, Error>(Error::InvalidHash)
            &&& r is Err ==> after == games
        }),
{
    assert(games[id - 1].wf());
}

} // verus!
