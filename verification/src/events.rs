//! What the coordinator tells of a batch as it works through it.

use vstd::prelude::*;
use crate::env::AccountId;
use crate::exec::OpaqueTypes;

verus! {

/// What the call of an operation returned, or, with `success` false, why
/// the operation was rejected before it ran.
#[derive(Debug, PartialEq, Eq)]
pub struct UserOperationReturnValue {
    /// The identifier of the operation.
    pub user_op_hash: [u8; 32],
    /// Whether the operation ran.
    pub success: bool,
    /// What was returned, or the rejection as text.
    pub result: OpaqueTypes,
}

/// Told once for each operation that was settled.
#[derive(Debug, Clone, Copy, PartialEq, Eq)]
pub struct UserOperationEvent {
    /// The identifier of the operation.
    pub user_op_hash: [u8; 32],
    /// The account the operation acted for.
    pub sender: AccountId,
    /// The sponsor that paid, all zero if the sender paid.
    pub paymaster: AccountId,
    /// The nonce of the operation.
    pub nonce: [u8; 32],
    /// Whether the call of the operation succeeded.
    pub success: bool,
    /// What the operation cost its payer.
    pub actual_gas_cost: u64,
    /// The gas the operation used, from validation to settlement.
    pub actual_gas_used: u64,
}

/// Told when an operation deployed its sender.
#[derive(Debug, Clone, Copy, PartialEq, Eq)]
pub struct AccountDeployed {
    /// The identifier of the operation.
    pub user_op_hash: [u8; 32],
    /// The account that was deployed.
    pub sender: AccountId,
    /// The factory that deployed it.
    pub factory: AccountId,
    /// The sponsor of the operation.
    pub paymaster: AccountId,
}

/// Told when the call of an operation failed or reverted.
#[derive(Debug, PartialEq, Eq)]
pub struct UserOperationRevertReason {
    /// The identifier of the operation.
    pub user_op_hash: [u8; 32],
    /// The account the operation acted for.
    pub sender: AccountId,
    /// The nonce of the operation.
    pub nonce: [u8; 32],
    /// Why the call failed.
    pub revert_reason: Vec<u8>,
}

/// Told between the validation of a batch and its execution.
#[derive(Debug, Clone, Copy, PartialEq, Eq)]
pub struct BeforeExecution {}

/// Told when the operations that follow are vouched for by another aggregator.
#[derive(Debug, Clone, Copy, PartialEq, Eq)]
pub struct SignatureAggregatorChanged {
    /// The aggregator.
    pub aggregator: AccountId,
}

/// Anything the coordinator tells.
#[derive(Debug, PartialEq, Eq)]
pub enum Event {
    ReturnValue(UserOperationReturnValue),
    Operation(UserOperationEvent),
    AccountDeployed(AccountDeployed),
    RevertReason(UserOperationRevertReason),
    BeforeExecution(BeforeExecution),
    SignatureAggregatorChanged(SignatureAggregatorChanged),
}

impl Event {
    /// Whether the event tells that an operation was rejected before it ran.
    pub open spec fn is_rejection(self) -> bool {
        self matches Event::ReturnValue(value) && !value.success
    }

    /// Whether the event tells that an operation was settled.
    pub open spec fn is_settlement(self) -> bool {
        self is Operation
    }
}

/// How many events of a log tell that an operation was rejected.
pub open spec fn count_rejections(log: Seq<Event>) -> nat
    decreases log.len(),
{
    if log.len() == 0 {
        0
    } else {
        count_rejections(log.drop_last()) + if log.last().is_rejection() {
            1nat
        } else {
            0nat
        }
    }
}

/// How many events of a log tell that an operation was settled.
pub open spec fn count_settlements(log: Seq<Event>) -> nat
    decreases log.len(),
{
    if log.len() == 0 {
        0
    } else {
        count_settlements(log.drop_last()) + if log.last().is_settlement() {
            1nat
        } else {
            0nat
        }
    }
}

/// By what a log names an operation that was settled: its identifier, its
/// sender, its sponsor and its nonce.
pub struct OpName {
    pub user_op_hash: [u8; 32],
    pub sender: AccountId,
    pub paymaster: AccountId,
    pub nonce: [u8; 32],
}

/// The rejections that a log tells, in the order of the log: of each the
/// identifier of the operation and the text that is told.
pub open spec fn rejected_in(log: Seq<Event>) -> Seq<([u8; 32], Seq<u8>)>
    decreases log.len(),
{
    if log.len() == 0 {
        Seq::empty()
    } else {
        let earlier = rejected_in(log.drop_last());
        match log.last() {
            Event::ReturnValue(value) => if value.success {
                earlier
            } else {
                earlier.push((value.user_op_hash, value.result@))
            },
            _ => earlier,
        }
    }
}

/// The settlements that a log tells, in the order of the log: of each the
/// operation by its name and what it cost.
pub open spec fn settled_in(log: Seq<Event>) -> Seq<(OpName, u64)>
    decreases log.len(),
{
    if log.len() == 0 {
        Seq::empty()
    } else {
        let earlier = settled_in(log.drop_last());
        match log.last() {
            Event::Operation(event) => earlier.push(
                (
                    OpName {
                        user_op_hash: event.user_op_hash,
                        sender: event.sender,
                        paymaster: event.paymaster,
                        nonce: event.nonce,
                    },
                    event.actual_gas_cost,
                ),
            ),
            _ => earlier,
        }
    }
}

/// A log tells as many rejections and settlements as it names rejected and
/// settled operations.
pub proof fn lemma_counts_are_lengths(log: Seq<Event>)
    ensures
        count_rejections(log) == rejected_in(log).len(),
        count_settlements(log) == settled_in(log).len(),
    decreases log.len(),
{
    if log.len() > 0 {
        lemma_counts_are_lengths(log.drop_last());
    }
}

/// Counting and reading over a log with one more event.
pub proof fn lemma_count_push(log: Seq<Event>, event: Event)
    ensures
        rejected_in(log.push(event)) == match event {
            Event::ReturnValue(value) => if value.success {
                rejected_in(log)
            } else {
                rejected_in(log).push((value.user_op_hash, value.result@))
            },
            _ => rejected_in(log),
        },
        settled_in(log.push(event)) == match event {
            Event::Operation(told) => settled_in(log).push(
                (
                    OpName {
                        user_op_hash: told.user_op_hash,
                        sender: told.sender,
                        paymaster: told.paymaster,
                        nonce: told.nonce,
                    },
                    told.actual_gas_cost,
                ),
            ),
            _ => settled_in(log),
        },
        count_rejections(log.push(event)) == count_rejections(log) + if event.is_rejection() {
            1nat
        } else {
            0nat
        },
        count_settlements(log.push(event)) == count_settlements(log) + if event.is_settlement() {
            1nat
        } else {
            0nat
        },
{
    assert(log.push(event).drop_last() =~= log);
}

} // verus!
