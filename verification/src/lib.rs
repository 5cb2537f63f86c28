//! Authorization core of a multi-signer smart account: the signer policy, the
//! proposal and voting ledger, the lifecycle of settings and vault
//! transactions, batches, staged transaction buffers and the synchronous
//! execution path.
//!
//! Every operation is a function from the current records and plain inputs to
//! the next records, with a contract over the records' views. An operation
//! that fails leaves every record it was given unchanged; a record that it
//! was given to use up comes back with the error.

pub mod addresses;
pub mod batch;
mod copying;
pub mod errors;
pub mod events;
pub mod hashing;
pub mod instructions;
pub mod keys;
pub mod permissions;
pub mod program_config;
pub mod proposal;
pub mod sdk;
pub mod settings;
pub mod settings_transaction;
pub mod sorting;
pub mod synchronous;
pub mod transaction;
pub mod transaction_buffer;
