//! Core value types for a four-player trick-taking card game: card identity
//! and ordering (`Suit`, `Rank`, `Card`), table seats with their rotation and
//! partnership topology (`HandIdentifier`), and the two competing players
//! (`PlayerName`).

pub mod cards;
pub mod seats;
