//! Facts about sequences of operations on a game, stated over the outcome
//! relations that `Game::add_player`, `Game::remove_player` and `Game::start`
//! guarantee.

use vstd::prelude::*;
use crate::errors::{
    GameStartError,
    GameStartErrorKind,
    JoinGameError,
    JoinGameErrorKind,
    LeaveGameError,
    LeaveGameErrorKind,
};
use crate::game::{
    add_player_outcome,
    remove_player_outcome,
    start_outcome,
    GameState,
    GameView,
    PlayerId,
};

verus! {

/// After `n` joins on an empty table, `n` players sit there, in join order,
/// holding the identities the joins returned.
proof fn lemma_joins_fill_seats(
    games: Seq<GameView>,
    names: Seq<Seq<char>>,
    results: Seq<Result<PlayerId, JoinGameError>>,
    n: int,
)
    requires
        games.len() == 10,
        names.len() == 9,
        results.len() == 9,
        games[0].players.len() == 0,
        forall|k: int|
            0 <= k < 9 ==> add_player_outcome(games[k], names[k], games[k + 1], #[trigger] results[k]),
        0 <= n <= 8,
    ensures
        games[n].players.len() == n,
        forall|j: int|
            0 <= j < n ==> #[trigger] results[j] is Ok && games[n].players[j].id == results[j]->Ok_0,
    decreases n,
{
    if n > 0 {
        lemma_joins_fill_seats(games, names, results, n - 1);
        assert(add_player_outcome(games[n - 1], names[n - 1], games[n], results[n - 1]));
    }
}

/// Eight joins on an empty table all succeed, with eight different
/// identities, and seat eight players; a ninth join then fails with
/// `GameFull` and seats no one.
pub proof fn lemma_eight_joins_then_full(
    games: Seq<GameView>,
    names: Seq<Seq<char>>,
    results: Seq<Result<PlayerId, JoinGameError>>,
)
    requires
        games.len() == 10,
        names.len() == 9,
        results.len() == 9,
        games[0].players.len() == 0,
        forall|k: int|
            0 <= k < 9 ==> add_player_outcome(games[k], names[k], games[k + 1], #[trigger] results[k]),
    ensures
        forall|k: int| 0 <= k < 8 ==> #[trigger] results[k] is Ok,
        forall|j: int, k: int|
            0 <= j < k < 8 ==> #[trigger] results[j]->Ok_0 != #[trigger] results[k]->Ok_0,
        games[8].players.len() == 8,
        results[8] == Err::<PlayerId, JoinGameError>(
            JoinGameError { kind: JoinGameErrorKind::GameFull },
        ),
        games[9].players.len() == 8,
{
    lemma_joins_fill_seats(games, names, results, 8);
    assert forall|j: int, k: int| 0 <= j < k < 8 implies #[trigger] results[j]->Ok_0
        != #[trigger] results[k]->Ok_0 by {
        lemma_joins_fill_seats(games, names, results, k);
        assert(add_player_outcome(games[k], names[k], games[k + 1], results[k]));
        assert(games[k].players[j].id == results[j]->Ok_0);
    }
    assert(add_player_outcome(games[8], names[8], games[9], results[8]));
}

/// Removing any identity from an empty table fails with `PlayerNotFound`
/// and changes nothing.
pub proof fn lemma_leave_empty_table(
    pre: GameView,
    id: PlayerId,
    post: GameView,
    r: Result<(), LeaveGameError>,
)
    requires
        pre.players.len() == 0,
        remove_player_outcome(pre, id, post, r),
    ensures
        r == Err::<(), LeaveGameError>(
            LeaveGameError { kind: LeaveGameErrorKind::PlayerNotFound(id) },
        ),
        post == pre,
{
}

/// When one player joins an empty table and then leaves by the identity that
/// joining returned, the leave succeeds and the table is empty again; the
/// same leave a second time fails with `PlayerNotFound` and changes nothing.
pub proof fn lemma_join_then_leave_twice(
    g0: GameView,
    name: Seq<char>,
    g1: GameView,
    joined: Result<PlayerId, JoinGameError>,
    g2: GameView,
    first: Result<(), LeaveGameError>,
    g3: GameView,
    second: Result<(), LeaveGameError>,
)
    requires
        g0.players.len() == 0,
        add_player_outcome(g0, name, g1, joined),
        remove_player_outcome(g1, joined->Ok_0, g2, first),
        remove_player_outcome(g2, joined->Ok_0, g3, second),
    ensures
        joined is Ok,
        first == Ok::<(), LeaveGameError>(()),
        g2.players.len() == 0,
        second == Err::<(), LeaveGameError>(
            LeaveGameError { kind: LeaveGameErrorKind::PlayerNotFound(joined->Ok_0) },
        ),
        g3 == g2,
{
    assert(g1.players[0].id == joined->Ok_0);
    assert(g1.has_id(joined->Ok_0));
}

/// While a game waits, starting it with fewer than two players fails with
/// `InsufficientPlayers` and changes nothing.
pub proof fn lemma_start_needs_two(pre: GameView, post: GameView, r: Result<(), GameStartError>)
    requires
        pre.state == GameState::Waiting,
        pre.players.len() <= 1,
        start_outcome(pre, post, r),
    ensures
        r == Err::<(), GameStartError>(
            GameStartError { kind: GameStartErrorKind::InsufficientPlayers },
        ),
        post == pre,
{
}

/// A waiting game with two or more players starts once, moving to `PreFlop`;
/// starting it again fails with `GameInProgress` and changes nothing.
pub proof fn lemma_start_once(
    g0: GameView,
    g1: GameView,
    r1: Result<(), GameStartError>,
    g2: GameView,
    r2: Result<(), GameStartError>,
)
    requires
        g0.state == GameState::Waiting,
        g0.players.len() >= 2,
        start_outcome(g0, g1, r1),
        start_outcome(g1, g2, r2),
    ensures
        r1 == Ok::<(), GameStartError>(()),
        g1.state == GameState::PreFlop,
        r2 == Err::<(), GameStartError>(
            GameStartError { kind: GameStartErrorKind::GameInProgress },
        ),
        g2 == g1,
{
}

} // verus!
