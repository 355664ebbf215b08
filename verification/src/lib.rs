//! A ledger of client accounts driven by a sequential feed of transactions.

pub mod account;
pub mod decimal;
pub mod engine;
pub mod errors;
pub mod laws;
pub mod transaction;
pub mod utils;

pub use crate::account::ClientAccount;
pub use crate::engine::PaymentsEngine;
pub use crate::errors::PaymentsTransactionError;
