//! Typed reasons for which joining, leaving or starting a game fails.

use vstd::prelude::*;
use crate::game::PlayerId;

verus! {

/// Why a player could not join a game.
#[derive(Debug, Clone, Copy, PartialEq, Eq, Structural)]
pub enum JoinGameErrorKind {
    GameFull,
}

/// Error returned when a player fails to join a game.
#[derive(Debug, Clone, Copy, PartialEq, Eq, Structural)]
pub struct JoinGameError {
    pub kind: JoinGameErrorKind,
}

/// The text that describes a failure to join.
pub open spec fn join_error_text(kind: JoinGameErrorKind) -> Seq<char> {
    match kind {
        JoinGameErrorKind::GameFull => "The game is full"@,
    }
}

impl JoinGameError {
    /// A human-readable description of the failure.
    pub fn message(&self) -> (r: String)
        ensures
            r@ == join_error_text(self.kind),
    {
        match self.kind {
            JoinGameErrorKind::GameFull => String::from_str("The game is full"),
        }
    }
}

/// Why a game could not be started.
#[derive(Debug, Clone, Copy, PartialEq, Eq, Structural)]
pub enum GameStartErrorKind {
    InsufficientPlayers,
    GameInProgress,
}

/// Error returned when a game fails to start.
#[derive(Debug, Clone, Copy, PartialEq, Eq, Structural)]
pub struct GameStartError {
    pub kind: GameStartErrorKind,
}

/// The text that describes a failure to start.
pub open spec fn start_error_text(kind: GameStartErrorKind) -> Seq<char> {
    match kind {
        GameStartErrorKind::InsufficientPlayers => "Cannot start a game with fewer than two players"@,
        GameStartErrorKind::GameInProgress => "Cannot start a game that is in progress"@,
    }
}

impl GameStartError {
    /// A human-readable description of the failure.
    pub fn message(&self) -> (r: String)
        ensures
            r@ == start_error_text(self.kind),
    {
        match self.kind {
            GameStartErrorKind::InsufficientPlayers => String::from_str(
                "Cannot start a game with fewer than two players",
            ),
            GameStartErrorKind::GameInProgress => String::from_str(
                "Cannot start a game that is in progress",
            ),
        }
    }
}

/// Why a player could not leave a game.
#[derive(Debug, Clone, Copy, PartialEq, Eq, Structural)]
pub enum LeaveGameErrorKind {
    /// No player with this identity sits at the table.
    PlayerNotFound(PlayerId),
}

/// Error returned when a player fails to leave a game.
#[derive(Debug, Clone, Copy, PartialEq, Eq, Structural)]
pub struct LeaveGameError {
    pub kind: LeaveGameErrorKind,
}

} // verus!
