//! A ticketed prize-pool ("giveaway") protocol: participants pay an entry fee
//! in one of two assets, a winner is drawn after the deadline by one of three
//! randomness tiers, and the collected funds are paid out, split or refunded.
//!
//! Every operation is a verified transition on plain values. Storage, clocks,
//! signatures, transfers and the randomness oracle stay with the caller, who
//! hands their results in and carries out the payouts that come back.

pub mod bytes;
pub mod identity;
pub mod error;
pub mod state;
pub mod lifecycle;
pub mod randomness;
pub mod settlement;
pub mod laws;
