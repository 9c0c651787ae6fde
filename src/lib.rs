//! A round-based lottery: tickets are sold during a timed window, the
//! payments form a prize pool, and once the window has closed one entry of
//! the participant list is picked pseudo-randomly and paid the whole pool,
//! after which the round starts over.
//!
//! The round is a plain value. Everything the hosting environment supplies
//! (the caller, the current time, the value sent with a call, the outcome of
//! a transfer) is handed in as an argument.

pub mod laws;
pub mod round;

pub use round::{AccountId, Error, Lottery, RoundState, DEFAULT_TICKET_COST, SEVEN_DAYS};
