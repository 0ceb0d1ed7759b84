//! A private-transaction core: one-time serial numbers with their proofs, the
//! authorization of a state transition, its execution into a transaction, and
//! the validation of transactions against a ledger.
//!
//! The algebra comes from the network's own crates: field elements and points
//! are held here as plain integers, and every operation on them is one call
//! into those crates. The proof backend, the ledger, the programs and the
//! derivations that bind a transition are what the caller brings.

pub mod error;

pub mod field;
pub mod network;
pub mod wire;

pub mod account;
pub mod address;
pub mod boolean;
pub mod serial_number;
pub mod state;

pub mod duplicates;
pub mod kernel;
pub mod ledger;
pub mod parameters;
pub mod record;
pub mod snark;
pub mod transaction;
pub mod transition;
pub mod variables;

pub mod dpc;

pub mod equal;
pub mod literal;
pub mod stack;

pub mod mining;
