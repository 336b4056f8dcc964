//! Core of a collaborative retrospective board: the authorization-gate
//! chain that every request must pass, and the bounded vote tally that
//! keeps each participant's count on a card within a board's budget.
//!
//! Persistence is an external collaborator: the store's answers enter
//! the library as plain values, every decision taken on them is
//! verified here, and the caller performs the reads and writes the
//! decisions ask for.

pub mod cards;
pub mod chain;
pub mod errors;
pub mod gates;
pub mod laws;
pub mod models;
pub mod votes;
