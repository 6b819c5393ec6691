//! The operations on a session, one module each.

pub mod admin;
pub mod buy_ticket;
pub mod choose_winner;
pub mod claim_prize;
pub mod commit_winner;
