//! Session engine for a multiplayer Texas Hold'em table: the card and deck
//! model, the players seated at a table, and the phase machine of a game.

pub mod cards;
pub mod errors;
pub mod game;
pub mod lemmas;
