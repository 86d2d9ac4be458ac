//! An owner-gated ledger of address scores.
//!
//! A ledger is one record: the identity of its owner and a table that maps
//! addresses to signed scores, kept as a JSON document. Anyone may add an
//! address that is not yet listed; only the owner may change the score of a
//! listed address.

pub mod contract;
pub mod error;
pub mod json;
pub mod laws;
pub mod msg;
pub mod scores;
pub mod state;
