//! A ledger of transfers kept in the instance storage of a Soroban contract.
//!
//! Every write gets the next number of one counter and is added to the
//! sequence of its sender and to that of its receiver; either party reads its
//! own sequence, whole or by tag. [`ledger`] says what the store holds as a
//! value, [`laws`] what follows of it, [`contract`] holds the operations, and
//! [`host`] the calls into the host that they rest on.

pub mod contract;
pub mod error;
pub mod host;
pub mod laws;
pub mod ledger;
pub mod record;

pub use contract::TransactionHistoryContract;
pub use error::StorageFailure;
pub use ledger::Ledger;
pub use record::{Transaction, TxHistory};
