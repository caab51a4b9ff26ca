//! What the coordinator and the ledgers need from the chain they run on: its
//! gas meter and clock, transfers of the native token, and calls to the
//! contracts of senders, sponsors, aggregators and call targets.

use vstd::prelude::*;
use crate::env::{AccountId, Balance, Timestamp};
use crate::error::Error;
use crate::exec::{OpaqueTypes, Transaction};
use crate::helpers::ValidationData;
use crate::user_operation::UserOperation;

verus! {

/// How the call of an operation ended, as its sponsor is told afterwards.
#[derive(Clone, Copy, Debug, PartialEq, Eq)]
pub enum PostOpMode {
    /// The call succeeded.
    OpSucceeded,
    /// The call reverted; the sponsor still pays.
    OpReverted,
    /// The call succeeded, but the sponsor's first post-operation hook reverted.
    PostOpReverted,
}

/// The chain, as the coordinator and the ledgers reach it. Nothing is
/// assumed of what an implementation answers: whatever is proved of a
/// function that takes a `Host` holds for every answer.
pub trait Host {
    /// The gas that is left to the running call.
    fn gas_left(&mut self) -> u64;

    /// The time of the current block.
    fn block_timestamp(&mut self) -> Timestamp;

    /// Moves `value` of the native token to `destination`.
    fn transfer(&mut self, destination: AccountId, value: Balance) -> Result<(), Error>;

    /// Asks the sender of `user_op` whether it stands by the operation. The
    /// sender is told what its deposit at the coordinator is short of.
    fn validate_user_op(
        &mut self,
        user_op: &UserOperation,
        user_op_hash: [u8; 32],
        missing_account_funds: Balance,
    ) -> Result<ValidationData, Error>;

    /// Asks the sponsor of `user_op` whether it pays for the operation, up to
    /// `max_cost`. The sponsor answers with a context for `post_op`.
    fn validate_paymaster_user_op(
        &mut self,
        user_op: &UserOperation,
        user_op_hash: [u8; 32],
        max_cost: Balance,
    ) -> Result<(Vec<u8>, ValidationData), Error>;

    /// Tells the sponsor `paymaster` how the operation ended and what it cost.
    fn post_op(
        &mut self,
        paymaster: AccountId,
        mode: PostOpMode,
        context: &Vec<u8>,
        actual_gas_cost: Balance,
    ) -> Result<(), Error>;

    /// Asks `aggregator` whether `signature` covers all of `user_ops`.
    fn validate_signatures(
        &mut self,
        aggregator: AccountId,
        user_ops: &Vec<UserOperation>,
        signature: &Vec<u8>,
    ) -> Result<(), Error>;

    /// Makes the call. It answers with what the callee returned, or, if the
    /// call failed or reverted, with the reason as bytes.
    fn invoke(&mut self, transaction: Transaction) -> Result<OpaqueTypes, Vec<u8>>;
}

} // verus!
