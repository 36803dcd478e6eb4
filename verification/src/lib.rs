//! Authorization-gated resource lifecycle engine of a route-tracking and
//! fitness-challenge service: signed identity tokens, the ownership guard,
//! the challenge state machine and the best-per-user leaderboards, each with a
//! machine-checked contract.
//!
//! Persistence, HTTP transport and clocks are collaborators: every function
//! here takes what a store returned as plain values and says what must be
//! answered or written next.

pub mod error;
pub mod text;
pub mod db;
pub mod models;
pub mod token;
pub mod password;
pub mod routes;
pub mod guard;
pub mod listing;
pub mod leaderboard;
pub mod middleware;
