//! A hashed time-locked escrow: funds are released to the recipient against
//! the preimage of a SHA-256 commitment before a deadline, and can be
//! refunded to the funder once the deadline has passed.

pub mod contract;
pub mod error;
pub mod expiry;
pub mod hash;
pub mod laws;
pub mod msg;
pub mod state;
pub mod types;
