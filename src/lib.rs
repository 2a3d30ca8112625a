//! A two-party token escrow: the stored record, its lifecycle rules and the
//! decisions taken for each operation, as functions on plain values.

pub mod bytes;
pub mod error;
pub mod state;
pub mod processor;
pub mod instruction;
pub mod lifecycle;
pub mod token;
