//! Validation and storage core of a block-lattice ledger.
//!
//! Every account owns a chain of signed, proof-of-work gated blocks. The
//! [`blockstorage::Storage`] ledger admits a block only when it keeps every
//! chain a simple path, never spends a send twice and never creates value.
mod errors;
pub mod types;
pub mod crypto;
pub mod transaction;
pub mod blockstorage;
pub mod work;

pub use errors::Failure;
