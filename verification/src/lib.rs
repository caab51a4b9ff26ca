//! Account-abstraction relay and settlement: operations, their canonical
//! hash, the nonce and deposit ledgers, and the coordinator that validates,
//! executes and settles batches of operations.

pub mod env;
pub mod error;
pub mod codec;
pub mod helpers;
pub mod user_operation;
pub mod exec;
pub mod host;
pub mod nonce_manager;
pub mod stake_manager;
pub mod events;
pub mod entry_point;
pub mod validation;
pub mod execution;
pub mod batch;
pub mod base_account;
pub mod base_paymaster;
pub mod simple_paymaster;
pub mod recover_sig;
pub mod sender_creator;
pub mod flip;
pub mod deploy;
