//! Peer-to-peer escrow: the order lifecycle and its custody accounting.

pub mod account;
pub mod escrow;
pub mod events;
pub mod fee;
pub mod laws;
pub mod model;
pub mod order;
pub mod settlement;
