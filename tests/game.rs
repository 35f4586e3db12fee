use poker_table::cards::{Card, Suit};
use poker_table::errors::{
    GameStartError, GameStartErrorKind, JoinGameError, JoinGameErrorKind, LeaveGameError,
    LeaveGameErrorKind,
};
use poker_table::game::{
    Game, GameState, Player, PlayerId, DEFAULT_BIG_BLIND, DEFAULT_SMALL_BLIND,
    DEFAULT_STARTING_STACK, MAX_PLAYERS, UUID_V4_BITS, UUID_V4_MASK,
};
use uuid::Uuid;

#[test]
fn test_create_player() {
    let player = Player::new(String::from("test player"));
    assert_eq!(player.name(), "test player", "Newly created players should use the name given to them");
    assert_eq!(player.bet(), 0, "Newly created players should not have a bet");
    assert_eq!(player.chips(), DEFAULT_STARTING_STACK, "New players should have the default starting stack");
    assert!(!player.has_folded(), "Newly created players have not folded their hand");
    assert!(player.is_sitting_out(), "Newly created players should begin sitting out until a new round starts");
}

#[test]
fn test_create_game() {
    let game = Game::new();
    assert_eq!(game.num_players(), 0, "Newly created games should have no players");
    assert_eq!(game.state(), GameState::Waiting, "New games should begin in a waiting state");
    assert_eq!(game.button_index(), 0, "New games should start with the button on player 0");
    assert_eq!(game.turn_index(), 0, "New games should start with the action on player 0");
    assert_eq!(game.pot(), 0, "New games should have no chips in the pot");
    assert_eq!(game.small_blind(), DEFAULT_SMALL_BLIND, "New games should start with the default small blind");
    assert_eq!(game.big_blind(), DEFAULT_BIG_BLIND, "New games should start with the default big blind");
}

#[test]
fn test_add_player() {
    let mut game = Game::new();
    for i in 0..MAX_PLAYERS {
        assert_eq!(game.num_players(), i, "Check the number of players before we add one");
        let idx = game.add_player(format!("Player {}", i + 1));
        assert!(idx.is_ok(), "Adding a player should not create an error if the game isn't full");
        assert_eq!(game.num_players(), i + 1, "Check the number of players increased");
    }
    assert!(game.add_player(String::from("Too many")).is_err(), "Check that adding too many players creates an error");
}

#[test]
fn test_remove_player() {
    let mut game = Game::new();
    assert!(game.remove_player(PlayerId::from_u128(Uuid::new_v4().as_u128())).is_err(), "Test that removing a player from an empty game creates an error");
    let player_id = game.add_player(String::from("Player 1")).unwrap();
    assert_eq!(game.num_players(), 1, "Test that the player was really added");
    assert!(game.remove_player(player_id).is_ok(), "Test that we can remove a valid player");
    assert_eq!(game.num_players(), 0, "Test that the player really was removed");
    let second_player_id = game.add_player(String::from("Player 2")).unwrap();
    assert!(game.add_player(String::from("Player 3")).is_ok());
    assert!(game.add_player(String::from("Player 4")).is_ok());
    assert_eq!(game.num_players(), 3, "Test that we have the correct number of players before removal");
    assert!(game.has_player(second_player_id), "Test that the second player is present before removal");
    assert!(game.remove_player(player_id).is_err(), "Test that removing a non-existent player does nothing");
    assert_eq!(game.num_players(), 3, "Test that the invalid remove did not mutate the players vector");
    assert!(game.remove_player(second_player_id).is_ok(), "Test that removing a player with multiple players present removes the player");
    assert_eq!(game.num_players(), 2, "Test that we are left with the correct number of players");
    assert!(!game.has_player(second_player_id), "Test that the correct player was removed");
}

#[test]
fn test_start_game() {
    let mut game = Game::new();
    assert!(game.start().is_err(), "Test that an empty game cannot be started");
    assert!(game.add_player(String::from("Player 1")).is_ok(), "Test that we can add a player");
    assert!(game.start().is_err(), "Test that a game with one player in cannot be started");
    assert!(game.add_player(String::from("Player 2")).is_ok(), "Test that we can add a player");
    assert!(game.start().is_ok(), "Test that we start the game once enough players have been added");
    assert!(game.start().is_err(), "Test that a game can only be started once");
}

fn full_game() -> (Game, Vec<PlayerId>) {
    let mut game = Game::new();
    let mut ids = Vec::new();
    for i in 0..8 {
        ids.push(game.add_player(format!("Player {}", i + 1)).unwrap());
    }
    (game, ids)
}

#[test]
fn eight_joins_give_distinct_identities_and_a_ninth_is_refused() {
    let (mut game, ids) = full_game();
    assert_eq!(game.num_players(), 8);
    for j in 0..8 {
        for k in (j + 1)..8 {
            assert_ne!(ids[j], ids[k]);
        }
        assert_eq!(game.player(j).id(), ids[j]);
    }
    let ninth = game.add_player(String::from("ninth"));
    assert_eq!(ninth, Err(JoinGameError { kind: JoinGameErrorKind::GameFull }));
    assert_eq!(game.num_players(), 8);
}

#[test]
fn two_players_start_once_then_game_in_progress() {
    let mut game = Game::new();
    assert!(game.add_player(String::from("A")).is_ok());
    assert!(game.add_player(String::from("B")).is_ok());
    assert_eq!(game.start(), Ok(()));
    assert_eq!(game.state(), GameState::PreFlop);
    assert_eq!(
        game.start(),
        Err(GameStartError { kind: GameStartErrorKind::GameInProgress })
    );
    assert_eq!(game.state(), GameState::PreFlop);
}

#[test]
fn start_with_too_few_players_is_insufficient() {
    let mut game = Game::new();
    let insufficient = Err(GameStartError { kind: GameStartErrorKind::InsufficientPlayers });
    assert_eq!(game.start(), insufficient);
    assert!(game.add_player(String::from("A")).is_ok());
    assert_eq!(game.start(), insufficient);
    assert_eq!(game.state(), GameState::Waiting);
}

#[test]
fn started_game_reduced_to_one_player_is_still_in_progress() {
    let mut game = Game::new();
    let a = game.add_player(String::from("A")).unwrap();
    assert!(game.add_player(String::from("B")).is_ok());
    assert_eq!(game.start(), Ok(()));
    assert_eq!(game.remove_player(a), Ok(()));
    assert_eq!(
        game.start(),
        Err(GameStartError { kind: GameStartErrorKind::GameInProgress })
    );
}

#[test]
fn leave_empty_table_reports_the_identity() {
    let mut game = Game::new();
    let id = PlayerId::from_u128(42);
    assert_eq!(
        game.remove_player(id),
        Err(LeaveGameError { kind: LeaveGameErrorKind::PlayerNotFound(id) })
    );
}

#[test]
fn join_then_leave_twice() {
    let mut game = Game::new();
    let id = game.add_player(String::from("A")).unwrap();
    assert_eq!(game.remove_player(id), Ok(()));
    assert_eq!(game.num_players(), 0);
    assert_eq!(
        game.remove_player(id),
        Err(LeaveGameError { kind: LeaveGameErrorKind::PlayerNotFound(id) })
    );
    assert_eq!(game.num_players(), 0);
}

#[test]
fn removal_keeps_order_of_remaining_players() {
    let (mut game, ids) = full_game();
    assert_eq!(game.remove_player(ids[3]), Ok(()));
    assert_eq!(game.num_players(), 7);
    let expected: Vec<PlayerId> = ids.iter().enumerate().filter(|(i, _)| *i != 3).map(|(_, id)| *id).collect();
    for (i, id) in expected.iter().enumerate() {
        assert_eq!(game.player(i).id(), *id);
        assert_eq!(game.player(i).name(), format!("Player {}", if i < 3 { i + 1 } else { i + 2 }));
    }
}

#[test]
fn seat_indices_stay_valid_after_removal() {
    let mut game = Game::new();
    let a = game.add_player(String::from("A")).unwrap();
    assert_eq!(game.remove_player(a), Ok(()));
    assert_eq!(game.button_index(), 0);
    assert_eq!(game.turn_index(), 0);
}

#[test]
fn drawn_candidate_is_used_when_free() {
    let mut game = Game::new();
    let c = PlayerId::from_u128(1000);
    assert_eq!(game.add_player_with_candidate(String::from("A"), c), Ok(c));
    assert_eq!(game.player(0).id(), c);
}

#[test]
fn drawn_candidate_that_is_taken_moves_to_the_next_free_value() {
    let mut game = Game::new();
    let c = PlayerId::from_u128(1000);
    assert_eq!(game.add_player_with_candidate(String::from("A"), c), Ok(c));
    assert_eq!(
        game.add_player_with_candidate(String::from("B"), c),
        Ok(PlayerId::from_u128(1001))
    );
    assert_eq!(
        game.add_player_with_candidate(String::from("C"), c),
        Ok(PlayerId::from_u128(1002))
    );
}

#[test]
fn taken_candidate_near_the_top_searches_below() {
    let mut game = Game::new();
    let top = PlayerId::from_u128(u128::MAX);
    assert_eq!(game.add_player_with_candidate(String::from("A"), top), Ok(top));
    assert_eq!(
        game.add_player_with_candidate(String::from("B"), top),
        Ok(PlayerId::from_u128(u128::MAX - 8))
    );
}

#[test]
fn candidate_on_full_table_is_refused() {
    let (mut game, ids) = full_game();
    assert_eq!(
        game.add_player_with_candidate(String::from("X"), PlayerId::from_u128(7)),
        Err(JoinGameError { kind: JoinGameErrorKind::GameFull })
    );
    assert_eq!(game.num_players(), 8);
    assert_eq!(game.player(7).id(), ids[7]);
}

#[test]
fn random_identities_are_version_four_and_differ() {
    let a = PlayerId::random();
    let b = PlayerId::random();
    assert_eq!(a.as_u128() & UUID_V4_MASK, UUID_V4_BITS);
    assert_eq!(b.as_u128() & UUID_V4_MASK, UUID_V4_BITS);
    assert_ne!(a, b);
    assert_eq!(Uuid::from_u128(a.as_u128()).get_version_num(), 4);
}

#[test]
fn new_player_holds_placeholder_hand() {
    let player = Player::with_id(String::from("p"), PlayerId::from_u128(9));
    assert_eq!(player.id(), PlayerId::from_u128(9));
    assert_eq!(player.hand(), [Card::new(14, Suit::Spades), Card::new(14, Suit::Clubs)]);
    assert_eq!(player.chips(), 250);
}

#[test]
fn error_messages() {
    assert_eq!(JoinGameError { kind: JoinGameErrorKind::GameFull }.message(), "The game is full");
    assert_eq!(
        GameStartError { kind: GameStartErrorKind::InsufficientPlayers }.message(),
        "Cannot start a game with fewer than two players"
    );
    assert_eq!(
        GameStartError { kind: GameStartErrorKind::GameInProgress }.message(),
        "Cannot start a game that is in progress"
    );
}
