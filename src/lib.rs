//! A two-recipient payment splitter: deposits of a single coin are split
//! evenly between two recipients (less an optional fixed fee that goes to the
//! owner) and credited to an internal ledger, from which holders withdraw.

pub mod contract;
pub mod decimal;
pub mod error;
pub mod lemmas;
pub mod msg;
pub mod response;
pub mod state;
