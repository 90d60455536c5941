//! A marketplace transaction engine: buyers and sellers exchange paid work
//! through an escrowed order with milestones, reviews, and dispute
//! resolution. This crate holds the order/escrow/dispute lifecycle state
//! machine and its fee-accounting rules, each operation verified against a
//! contract that states exactly when it succeeds, which error it returns
//! otherwise, and how the record changes. Durable storage, value custody
//! and the clock are external substrates: every operation here is a pure
//! transition on the records it is handed, and the caller commits the new
//! records (or none, on an error) as one atomic unit.

pub mod errors;
pub mod fees;
pub mod escrow;
pub mod listing;
pub mod order;
pub mod dispute;
pub mod milestone;
pub mod marketplace;
pub mod profile;
pub mod review;
