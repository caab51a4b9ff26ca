//! Batches: every operation of a batch is validated, then every accepted
//! operation is executed and settled, then the fees go to the beneficiary.
//! An operation that is rejected leaves no trace in the ledgers.

use vstd::prelude::*;
use vstd::string::StrSliceExecFns;
use crate::env::{all_zero, AccountId, Balance, Timestamp};
use crate::entry_point::{spec_acceptable, spec_charge, spec_payer, spec_prefund, spec_refund, spec_required_prefund, spec_validation_fault, EntryPoint, Ledgers, UserOpInfo};
use crate::error::{debug_text, is_rejection, spec_is_settlement_error, Error};
use crate::validation::spec_validation_error_fits;
use crate::events::{count_rejections, count_settlements, lemma_count_push, rejected_in, settled_in, BeforeExecution, Event, OpName, UserOperationReturnValue};
use crate::execution::spec_op_name;
use crate::exec::OpaqueTypes;
use crate::helpers::{Aggregator, ValidationData};
use crate::stake_manager::DepositInfo;
use crate::host::Host;
use crate::nonce_manager::nonce_key;
use crate::user_operation::{UserOperation, UserOperationView};

verus! {

/// How one operation of a batch ended.
#[derive(Debug, PartialEq, Eq)]
pub enum OpOutcome {
    /// Validation rejected the operation; the ledgers do not show it.
    Rejected(Error),
    /// The operation was accepted, executed and settled at this cost.
    Settled { actual_gas_cost: u64 },
    /// The operation was accepted, but could not be settled: its payer is
    /// charged the prefund and has nothing back.
    Unsettled(Error),
}

/// What a batch did.
#[derive(Debug, PartialEq, Eq)]
pub struct BatchReceipt {
    /// For each operation of the batch, in its order, how it ended.
    pub outcomes: Vec<OpOutcome>,
    /// What was told while the batch was worked through.
    pub events: Vec<Event>,
    /// The fees that were paid to the beneficiary.
    pub collected: u64,
}

/// The operations of a batch, as contracts see them.
pub open spec fn spec_op_views(ops: Seq<UserOperation>) -> Seq<UserOperationView> {
    Seq::new(ops.len(), |i: int| ops[i]@)
}

/// For each outcome, whether the operation was accepted.
pub open spec fn spec_accepted(outcomes: Seq<OpOutcome>) -> Seq<bool> {
    Seq::new(outcomes.len(), |i: int| !(outcomes[i] is Rejected))
}

/// For each outcome, the cost the operation was settled at, if it was settled.
pub open spec fn spec_costs(outcomes: Seq<OpOutcome>) -> Seq<Option<u64>> {
    Seq::new(
        outcomes.len(),
        |i: int|
            match outcomes[i] {
                OpOutcome::Settled { actual_gas_cost } => Some(actual_gas_cost),
                _ => None,
            },
    )
}

/// The ledgers after the operations that were accepted have been charged, in the order of the batch.
pub open spec fn spec_charge_all(
    ledgers: Ledgers,
    ops: Seq<UserOperationView>,
    accepted: Seq<bool>,
) -> Ledgers
    decreases ops.len(),
{
    if ops.len() == 0 || accepted.len() != ops.len() {
        ledgers
    } else {
        let before = spec_charge_all(ledgers, ops.drop_last(), accepted.drop_last());
        if accepted.last() {
            spec_charge(before, ops.last())
        } else {
            before
        }
    }
}

/// The ledgers after the operations that were settled have had their unspent prefund back, in the order of the batch.
pub open spec fn spec_refund_all(
    ledgers: Ledgers,
    ops: Seq<UserOperationView>,
    costs: Seq<Option<u64>>,
) -> Ledgers
    decreases ops.len(),
{
    if ops.len() == 0 || costs.len() != ops.len() {
        ledgers
    } else {
        let before = spec_refund_all(ledgers, ops.drop_last(), costs.drop_last());
        match costs.last() {
            Some(cost) => spec_refund(before, ops.last(), spec_prefund(ops.last()), cost),
            None => before,
        }
    }
}

/// The ledgers after a batch: the accepted operations are charged, then
/// the settled ones have their unspent prefund back.
pub open spec fn spec_batch(
    ledgers: Ledgers,
    ops: Seq<UserOperationView>,
    outcomes: Seq<OpOutcome>,
) -> Ledgers {
    spec_refund_all(
        spec_charge_all(ledgers, ops, spec_accepted(outcomes)),
        ops,
        spec_costs(outcomes),
    )
}

/// The fees of a batch: the costs of the operations that were settled.
pub open spec fn spec_collected(costs: Seq<Option<u64>>) -> int
    decreases costs.len(),
{
    if costs.len() == 0 {
        0
    } else {
        spec_collected(costs.drop_last()) + match costs.last() {
            Some(cost) => cost as int,
            None => 0,
        }
    }
}

/// How many operations were rejected.
pub open spec fn spec_count_rejected(accepted: Seq<bool>) -> nat
    decreases accepted.len(),
{
    if accepted.len() == 0 {
        0
    } else {
        spec_count_rejected(accepted.drop_last()) + if accepted.last() {
            0nat
        } else {
            1nat
        }
    }
}

/// How many operations were settled.
pub open spec fn spec_count_settled(costs: Seq<Option<u64>>) -> nat
    decreases costs.len(),
{
    if costs.len() == 0 {
        0
    } else {
        spec_count_settled(costs.drop_last()) + if costs.last() is Some {
            1nat
        } else {
            0nat
        }
    }
}

/// The ledgers as operation `at` of a batch found them: the accepted
/// operations before it are charged.
pub open spec fn spec_ledgers_before(
    ledgers: Ledgers,
    ops: Seq<UserOperationView>,
    accepted: Seq<bool>,
    at: int,
) -> Ledgers {
    spec_charge_all(ledgers, ops.take(at), accepted.take(at))
}

/// Whether each operation of a batch that validation rejected was rejected
/// for a fault that validation can find on the ledgers as the operation
/// found them.
pub open spec fn spec_rejections_fit(
    ledgers: Ledgers,
    ops: Seq<UserOperationView>,
    outcomes: Seq<OpOutcome>,
) -> bool {
    forall|j: int|
        0 <= j < ops.len() && j < outcomes.len() ==> (#[trigger] outcomes[j] matches OpOutcome::Rejected(
            e,
        ) ==> spec_validation_error_fits(
            spec_ledgers_before(ledgers, ops, spec_accepted(outcomes), j),
            ops[j],
            e,
            j as u64,
        ))
}

/// `spec_rejections_fit`, kept folded while a batch is executed.
#[verifier::opaque]
spec fn spec_rejections_fitted(
    ledgers: Ledgers,
    ops: Seq<UserOperationView>,
    outcomes: Seq<OpOutcome>,
) -> bool {
    spec_rejections_fit(ledgers, ops, outcomes)
}

/// Whether the outcomes of a batch are sound: an operation was accepted
/// only where the ledgers, as it found them, let it be accepted, it was
/// rejected only for a fault that validation can find on those ledgers,
/// and it was settled for no more than its prefund.
pub open spec fn spec_outcomes_sound(
    ledgers: Ledgers,
    ops: Seq<UserOperationView>,
    outcomes: Seq<OpOutcome>,
) -> bool {
    &&& outcomes.len() == ops.len()
    &&& forall|j: int|
        0 <= j < ops.len() && !(#[trigger] outcomes[j] is Rejected) ==> spec_acceptable(
            spec_ledgers_before(ledgers, ops, spec_accepted(outcomes), j),
            ops[j],
        )
    &&& forall|j: int|
        0 <= j < ops.len() ==> (#[trigger] outcomes[j] matches OpOutcome::Settled {
            actual_gas_cost,
        } ==> actual_gas_cost <= spec_prefund(ops[j]))
    &&& forall|j: int|
        0 <= j < ops.len() && spec_required_prefund(ops[j]) is Err ==> #[trigger] outcomes[j]
            == OpOutcome::Rejected(Error::GasValuesOverflow)
    &&& spec_rejections_fit(ledgers, ops, outcomes)
    &&& forall|j: int|
        0 <= j < ops.len() ==> (#[trigger] outcomes[j] matches OpOutcome::Unsettled(e)
            ==> spec_is_settlement_error(e, j as u64))
}

/// How many operations were accepted but could not be settled.
pub open spec fn spec_count_unsettled(outcomes: Seq<OpOutcome>) -> nat
    decreases outcomes.len(),
{
    if outcomes.len() == 0 {
        0
    } else {
        spec_count_unsettled(outcomes.drop_last()) + if outcomes.last() is Unsettled {
            1nat
        } else {
            0nat
        }
    }
}

/// The text that is told of an operation that was rejected for `e`: how
/// `{:?}` renders the rejection, as UTF-8.
pub open spec fn spec_rejection_text(e: Error) -> Seq<u8> {
    vstd::utf8::encode_utf8(crate::error::error_debug_text(e@))
}

/// By what the coordinator at `entry_point` names the operations of a
/// batch when it tells of them.
pub open spec fn spec_op_names(ops: Seq<UserOperationView>, entry_point: AccountId) -> Seq<OpName> {
    Seq::new(
        ops.len(),
        |i: int|
            OpName {
                user_op_hash: crate::entry_point::spec_user_op_hash(ops[i], entry_point),
                sender: ops[i].sender,
                paymaster: ops[i].paymaster_and_data.paymaster(),
                nonce: ops[i].nonce,
            },
    )
}

/// For each outcome, the text that is told if validation rejected the
/// operation.
pub open spec fn spec_rejections(outcomes: Seq<OpOutcome>) -> Seq<Option<Seq<u8>>> {
    Seq::new(
        outcomes.len(),
        |i: int|
            match outcomes[i] {
                OpOutcome::Rejected(e) => Some(spec_rejection_text(e)),
                _ => None,
            },
    )
}

/// Of the operations that `names` names, those that validation rejected,
/// in the order of the batch, each with the text that is told of it.
pub open spec fn spec_rejected_records(names: Seq<OpName>, rejections: Seq<Option<Seq<u8>>>) -> Seq<
    ([u8; 32], Seq<u8>),
>
    decreases names.len(),
{
    if names.len() == 0 || rejections.len() != names.len() {
        Seq::empty()
    } else {
        let earlier = spec_rejected_records(names.drop_last(), rejections.drop_last());
        match rejections.last() {
            Some(text) => earlier.push((names.last().user_op_hash, text)),
            None => earlier,
        }
    }
}

/// Of the operations that `names` names, those that were accepted but
/// could not be settled, in the order of the batch, each with the text
/// that is told of it.
pub open spec fn spec_unsettled_records(names: Seq<OpName>, outcomes: Seq<OpOutcome>) -> Seq<
    ([u8; 32], Seq<u8>),
>
    decreases names.len(),
{
    if names.len() == 0 || outcomes.len() != names.len() {
        Seq::empty()
    } else {
        let earlier = spec_unsettled_records(names.drop_last(), outcomes.drop_last());
        match outcomes.last() {
            OpOutcome::Unsettled(e) => earlier.push(
                (names.last().user_op_hash, spec_rejection_text(e)),
            ),
            _ => earlier,
        }
    }
}

/// Of the operations that `names` names, those that were settled, each
/// with what it cost, in the order of the batch.
pub open spec fn spec_settled_records(names: Seq<OpName>, costs: Seq<Option<u64>>) -> Seq<
    (OpName, u64),
>
    decreases names.len(),
{
    if names.len() == 0 || costs.len() != names.len() {
        Seq::empty()
    } else {
        let earlier = spec_settled_records(names.drop_last(), costs.drop_last());
        match costs.last() {
            Some(cost) => earlier.push((names.last(), cost)),
            None => earlier,
        }
    }
}

/// Whether the log of a batch tells of each operation what became of it.
/// The rejections it tells are those of the operations that validation
/// rejected, in their order, and then those of the operations that could
/// not be settled, in their order: each with the identifier of its
/// operation and the text of its rejection. The settlements it tells are
/// those of the settled operations, in their order: each with the name of
/// its operation and its cost. `names` names the operations.
pub open spec fn spec_log_names(log: Seq<Event>, names: Seq<OpName>, outcomes: Seq<OpOutcome>) -> bool {
    &&& rejected_in(log) == spec_rejected_records(names, spec_rejections(outcomes))
        + spec_unsettled_records(names, outcomes)
    &&& settled_in(log) == spec_settled_records(names, spec_costs(outcomes))
}

/// What a batch makes of the execution of one accepted operation, given
/// the fees collected so far: a cost is added to the fees and the
/// operation is settled, unless the fees would leave 64 bits, which fails
/// the batch; running out of gas fails the batch; any other failure leaves
/// the operation unsettled, and the batch goes on.
pub open spec fn spec_record_execution(collected: u64, answer: Result<u64, Error>) -> Result<
    (u64, OpOutcome),
    Error,
> {
    match answer {
        Ok(cost) => if collected + cost > u64::MAX {
            Err(Error::GasValuesOverflow)
        } else {
            Ok(((collected + cost) as u64, OpOutcome::Settled { actual_gas_cost: cost }))
        },
        Err(e) => if e == Error::OutOfGas {
            Err(Error::OutOfGas)
        } else {
            Ok((collected, OpOutcome::Unsettled(e)))
        },
    }
}

/// Records the execution of one accepted operation; see `spec_record_execution`.
pub fn record_execution(collected: u64, answer: Result<u64, Error>) -> (done: Result<
    (u64, OpOutcome),
    Error,
>)
    ensures
        done == spec_record_execution(collected, answer),
{
    match answer {
        Ok(cost) => match collected.checked_add(cost) {
            Some(sum) => Ok((sum, OpOutcome::Settled { actual_gas_cost: cost })),
            None => Err(Error::GasValuesOverflow),
        },
        Err(Error::OutOfGas) => Err(Error::OutOfGas),
        Err(e) => Ok((collected, OpOutcome::Unsettled(e))),
    }
}

/// What a batch of groups makes of the execution of one operation, given
/// the fees collected so far: a cost is added to the fees and the
/// operation is settled, unless the fees would leave 64 bits, which fails
/// the batch; any failure of the operation fails the batch with it.
pub open spec fn spec_record_group_execution(
    collected: u64,
    answer: Result<u64, Error>,
) -> Result<(u64, OpOutcome), Error> {
    match answer {
        Ok(cost) => if collected + cost > u64::MAX {
            Err(Error::GasValuesOverflow)
        } else {
            Ok(((collected + cost) as u64, OpOutcome::Settled { actual_gas_cost: cost }))
        },
        Err(e) => Err(e),
    }
}

/// Records the execution of one operation of a group; see
/// `spec_record_group_execution`.
pub fn record_group_execution(collected: u64, answer: Result<u64, Error>) -> (done: Result<
    (u64, OpOutcome),
    Error,
>)
    ensures
        done == spec_record_group_execution(collected, answer),
{
    match answer {
        Ok(cost) => match collected.checked_add(cost) {
            Some(sum) => Ok((sum, OpOutcome::Settled { actual_gas_cost: cost })),
            None => Err(Error::GasValuesOverflow),
        },
        Err(e) => Err(e),
    }
}

/// How the log of a batch is laid out: first what is told of each
/// operation that validation rejected, then the mark that execution begins,
/// then what is told of the operations that were executed: of each its
/// call, if it made one, and its settlement or, if it could not be settled,
/// its rejection.
pub open spec fn spec_batch_log(log: Seq<Event>, rejected: nat) -> bool {
    &&& log.len() > rejected
    &&& forall|j: int| 0 <= j < rejected ==> (#[trigger] log[j]).is_rejection()
    &&& log[rejected as int] == Event::BeforeExecution(BeforeExecution {  })
}

/// Charging a batch does not see an operation that was rejected.
pub proof fn lemma_charge_skips_rejected(
    ledgers: Ledgers,
    ops: Seq<UserOperationView>,
    accepted: Seq<bool>,
    k: int,
)
    requires
        ops.len() == accepted.len(),
        0 <= k < ops.len(),
        !accepted[k],
    ensures
        spec_charge_all(ledgers, ops, accepted) == spec_charge_all(
            ledgers,
            ops.remove(k),
            accepted.remove(k),
        ),
    decreases ops.len(),
{
    if k == ops.len() - 1 {
        assert(ops.remove(k) =~= ops.drop_last());
        assert(accepted.remove(k) =~= accepted.drop_last());
    } else {
        lemma_charge_skips_rejected(ledgers, ops.drop_last(), accepted.drop_last(), k);
        assert(ops.remove(k).drop_last() =~= ops.drop_last().remove(k));
        assert(accepted.remove(k).drop_last() =~= accepted.drop_last().remove(k));
        assert(ops.remove(k).last() == ops.last());
        assert(accepted.remove(k).last() == accepted.last());
    }
}

/// Refunding a batch does not see an operation that was not settled.
pub proof fn lemma_refund_skips_unsettled(
    ledgers: Ledgers,
    ops: Seq<UserOperationView>,
    costs: Seq<Option<u64>>,
    k: int,
)
    requires
        ops.len() == costs.len(),
        0 <= k < ops.len(),
        costs[k] is None,
    ensures
        spec_refund_all(ledgers, ops, costs) == spec_refund_all(
            ledgers,
            ops.remove(k),
            costs.remove(k),
        ),
    decreases ops.len(),
{
    if k == ops.len() - 1 {
        assert(ops.remove(k) =~= ops.drop_last());
        assert(costs.remove(k) =~= costs.drop_last());
    } else {
        lemma_refund_skips_unsettled(ledgers, ops.drop_last(), costs.drop_last(), k);
        assert(ops.remove(k).drop_last() =~= ops.drop_last().remove(k));
        assert(costs.remove(k).drop_last() =~= costs.drop_last().remove(k));
        assert(ops.remove(k).last() == ops.last());
        assert(costs.remove(k).last() == costs.last());
    }
}

/// Leaving a rejected operation out of the count leaves one rejection less.
pub proof fn lemma_rejections_without(accepted: Seq<bool>, k: int)
    requires
        0 <= k < accepted.len(),
        !accepted[k],
    ensures
        spec_count_rejected(accepted) == spec_count_rejected(accepted.remove(k)) + 1,
    decreases accepted.len(),
{
    if k == accepted.len() - 1 {
        assert(accepted.remove(k) =~= accepted.drop_last());
    } else {
        lemma_rejections_without(accepted.drop_last(), k);
        assert(accepted.remove(k).drop_last() =~= accepted.drop_last().remove(k));
        assert(accepted.remove(k).last() == accepted.last());
    }
}

/// Leaving an operation that was not settled out of the count leaves fees and settlements as they were.
pub proof fn lemma_settlements_without(costs: Seq<Option<u64>>, k: int)
    requires
        0 <= k < costs.len(),
        costs[k] is None,
    ensures
        spec_collected(costs) == spec_collected(costs.remove(k)),
        spec_count_settled(costs) == spec_count_settled(costs.remove(k)),
    decreases costs.len(),
{
    if k == costs.len() - 1 {
        assert(costs.remove(k) =~= costs.drop_last());
    } else {
        lemma_settlements_without(costs.drop_last(), k);
        assert(costs.remove(k).drop_last() =~= costs.drop_last().remove(k));
        assert(costs.remove(k).last() == costs.last());
    }
}

/// Leaving an operation that is not unsettled out of the count leaves the count as it was.
pub proof fn lemma_unsettled_without(outcomes: Seq<OpOutcome>, k: int)
    requires
        0 <= k < outcomes.len(),
        !(outcomes[k] is Unsettled),
    ensures
        spec_count_unsettled(outcomes) == spec_count_unsettled(outcomes.remove(k)),
    decreases outcomes.len(),
{
    if k == outcomes.len() - 1 {
        assert(outcomes.remove(k) =~= outcomes.drop_last());
    } else {
        lemma_unsettled_without(outcomes.drop_last(), k);
        assert(outcomes.remove(k).drop_last() =~= outcomes.drop_last().remove(k));
        assert(outcomes.remove(k).last() == outcomes.last());
    }
}

/// A rejected operation is isolated from its batch: the ledgers after the
/// batch are the ledgers after the same batch without that operation, and
/// so are the fees and the number of settlements; the batch with it has one
/// rejection more.
pub proof fn lemma_batch_isolation(
    ledgers: Ledgers,
    ops: Seq<UserOperationView>,
    outcomes: Seq<OpOutcome>,
    k: int,
)
    requires
        ops.len() == outcomes.len(),
        0 <= k < ops.len(),
        outcomes[k] is Rejected,
    ensures
        spec_batch(ledgers, ops, outcomes) == spec_batch(ledgers, ops.remove(k), outcomes.remove(k)),
        spec_collected(spec_costs(outcomes)) == spec_collected(spec_costs(outcomes.remove(k))),
        spec_count_settled(spec_costs(outcomes)) == spec_count_settled(
            spec_costs(outcomes.remove(k)),
        ),
        spec_count_rejected(spec_accepted(outcomes)) == spec_count_rejected(
            spec_accepted(outcomes.remove(k)),
        ) + 1,
        spec_count_unsettled(outcomes) == spec_count_unsettled(outcomes.remove(k)),
{
    lemma_unsettled_without(outcomes, k);
    assert(spec_accepted(outcomes.remove(k)) =~= spec_accepted(outcomes).remove(k));
    assert(spec_costs(outcomes.remove(k)) =~= spec_costs(outcomes).remove(k));
    lemma_charge_skips_rejected(ledgers, ops, spec_accepted(outcomes), k);
    lemma_refund_skips_unsettled(
        spec_charge_all(ledgers, ops, spec_accepted(outcomes)),
        ops,
        spec_costs(outcomes),
        k,
    );
    lemma_rejections_without(spec_accepted(outcomes), k);
    lemma_settlements_without(spec_costs(outcomes), k);
}

/// Every other operation of a batch finds the ledgers exactly as it would
/// find them if the rejected operation `k` were not in the batch.
pub proof fn lemma_others_find_same_ledgers(
    ledgers: Ledgers,
    ops: Seq<UserOperationView>,
    accepted: Seq<bool>,
    k: int,
    j: int,
)
    requires
        ops.len() == accepted.len(),
        0 <= k < ops.len(),
        !accepted[k],
        0 <= j < ops.len(),
        j != k,
    ensures
        spec_ledgers_before(ledgers, ops, accepted, j) == spec_ledgers_before(
            ledgers,
            ops.remove(k),
            accepted.remove(k),
            if j < k {
                j
            } else {
                j - 1
            },
        ),
{
    if j < k {
        assert(ops.remove(k).take(j) =~= ops.take(j));
        assert(accepted.remove(k).take(j) =~= accepted.take(j));
    } else {
        lemma_charge_skips_rejected(ledgers, ops.take(j), accepted.take(j), k);
        assert(ops.remove(k).take(j - 1) =~= ops.take(j).remove(k));
        assert(accepted.remove(k).take(j - 1) =~= accepted.take(j).remove(k));
    }
}

/// A batch in which every operation was settled counts as many settlements
/// as it has operations, no rejection and no operation left unsettled.
pub proof fn lemma_all_settled(outcomes: Seq<OpOutcome>)
    requires
        forall|j: int| 0 <= j < outcomes.len() ==> #[trigger] outcomes[j] is Settled,
    ensures
        spec_count_settled(spec_costs(outcomes)) == outcomes.len(),
        spec_count_rejected(spec_accepted(outcomes)) == 0,
        spec_count_unsettled(outcomes) == 0,
    decreases outcomes.len(),
{
    if outcomes.len() > 0 {
        lemma_all_settled(outcomes.drop_last());
        assert(spec_costs(outcomes).drop_last() =~= spec_costs(outcomes.drop_last()));
        assert(spec_accepted(outcomes).drop_last() =~= spec_accepted(outcomes.drop_last()));
        assert(outcomes[outcomes.len() - 1] is Settled);
    }
}

/// Where validation rejected no operation, no rejection by it is told.
pub proof fn lemma_none_rejected(names: Seq<OpName>, rejections: Seq<Option<Seq<u8>>>)
    requires
        names.len() == rejections.len(),
        forall|j: int| 0 <= j < rejections.len() ==> #[trigger] rejections[j] is None,
    ensures
        spec_rejected_records(names, rejections) == Seq::<([u8; 32], Seq<u8>)>::empty(),
    decreases names.len(),
{
    if names.len() > 0 {
        assert(rejections[rejections.len() - 1] is None);
        assert forall|j: int| 0 <= j < rejections.drop_last().len() implies #[trigger] rejections.drop_last()[j] is None by {
            assert(rejections[j] is None);
        }
        lemma_none_rejected(names.drop_last(), rejections.drop_last());
    }
}

/// Where every accepted operation was settled, no rejection after
/// validation is told.
pub proof fn lemma_none_unsettled(names: Seq<OpName>, outcomes: Seq<OpOutcome>)
    requires
        names.len() == outcomes.len(),
        forall|j: int| 0 <= j < outcomes.len() ==> !(#[trigger] outcomes[j] is Unsettled),
    ensures
        spec_unsettled_records(names, outcomes) == Seq::<([u8; 32], Seq<u8>)>::empty(),
    decreases names.len(),
{
    if names.len() > 0 {
        assert(!(outcomes[outcomes.len() - 1] is Unsettled));
        assert forall|j: int| 0 <= j < outcomes.drop_last().len() implies !(
        #[trigger] outcomes.drop_last()[j] is Unsettled) by {
            assert(!(outcomes[j] is Unsettled));
        }
        lemma_none_unsettled(names.drop_last(), outcomes.drop_last());
    }
}

/// The log of a batch in which every operation was settled tells no
/// rejection.
pub proof fn lemma_all_settled_names_none(names: Seq<OpName>, outcomes: Seq<OpOutcome>)
    requires
        names.len() == outcomes.len(),
        forall|j: int| 0 <= j < outcomes.len() ==> #[trigger] outcomes[j] is Settled,
    ensures
        spec_rejected_records(names, spec_rejections(outcomes)) + spec_unsettled_records(
            names,
            outcomes,
        ) == Seq::<([u8; 32], Seq<u8>)>::empty(),
{
    assert forall|j: int| 0 <= j < outcomes.len() implies #[trigger] spec_rejections(outcomes)[j] is None by {
        assert(outcomes[j] is Settled);
    }
    assert forall|j: int| 0 <= j < outcomes.len() implies !(#[trigger] outcomes[j] is Unsettled) by {
        assert(outcomes[j] is Settled);
    }
    lemma_none_rejected(names, spec_rejections(outcomes));
    lemma_none_unsettled(names, outcomes);
    assert(Seq::<([u8; 32], Seq<u8>)>::empty() + Seq::<([u8; 32], Seq<u8>)>::empty() =~= Seq::<
        ([u8; 32], Seq<u8>),
    >::empty());
}

/// Where validation rejected operation `k` and no other, its rejection is
/// the one rejection by validation that is told.
pub proof fn lemma_only_rejected(names: Seq<OpName>, rejections: Seq<Option<Seq<u8>>>, k: int)
    requires
        names.len() == rejections.len(),
        0 <= k < names.len(),
        rejections[k] is Some,
        forall|j: int| 0 <= j < rejections.len() && j != k ==> #[trigger] rejections[j] is None,
    ensures
        spec_rejected_records(names, rejections) == seq![
            (names[k].user_op_hash, rejections[k]->Some_0),
        ],
    decreases names.len(),
{
    let n = names.len() - 1;
    let told = (names[k].user_op_hash, rejections[k]->Some_0);
    if k == n {
        assert forall|j: int| 0 <= j < n implies #[trigger] rejections.drop_last()[j] is None by {
            assert(rejections[j] is None);
        }
        lemma_none_rejected(names.drop_last(), rejections.drop_last());
        assert(Seq::<([u8; 32], Seq<u8>)>::empty().push(told) =~= seq![told]);
    } else {
        assert(rejections[n] is None);
        assert forall|j: int| 0 <= j < n && j != k implies #[trigger] rejections.drop_last()[j] is None by {
            assert(rejections[j] is None);
        }
        lemma_only_rejected(names.drop_last(), rejections.drop_last(), k);
    }
}

/// An operation that was not settled is not among the settlements that
/// are told: they are those of the batch without it.
pub proof fn lemma_settled_records_without(names: Seq<OpName>, costs: Seq<Option<u64>>, k: int)
    requires
        names.len() == costs.len(),
        0 <= k < names.len(),
        costs[k] is None,
    ensures
        spec_settled_records(names, costs) == spec_settled_records(
            names.remove(k),
            costs.remove(k),
        ),
    decreases names.len(),
{
    if k == names.len() - 1 {
        assert(names.remove(k) =~= names.drop_last());
        assert(costs.remove(k) =~= costs.drop_last());
    } else {
        lemma_settled_records_without(names.drop_last(), costs.drop_last(), k);
        assert(names.remove(k).drop_last() =~= names.drop_last().remove(k));
        assert(costs.remove(k).drop_last() =~= costs.drop_last().remove(k));
        assert(names.remove(k).last() == names.last());
        assert(costs.remove(k).last() == costs.last());
    }
}

/// Where every operation was settled, the settlements that are told are
/// those of all operations of the batch, in its order, each at its cost.
pub proof fn lemma_settled_records_of_all(names: Seq<OpName>, outcomes: Seq<OpOutcome>)
    requires
        names.len() == outcomes.len(),
        forall|j: int| 0 <= j < outcomes.len() ==> #[trigger] outcomes[j] is Settled,
    ensures
        spec_settled_records(names, spec_costs(outcomes)).len() == names.len(),
        forall|j: int|
            0 <= j < names.len() ==> #[trigger] spec_settled_records(names, spec_costs(outcomes))[j]
                == (names[j], outcomes[j]->actual_gas_cost),
    decreases names.len(),
{
    if names.len() > 0 {
        let n = names.len() - 1;
        assert forall|j: int| 0 <= j < n implies #[trigger] outcomes.drop_last()[j] is Settled by {
            assert(outcomes[j] is Settled);
        }
        lemma_settled_records_of_all(names.drop_last(), outcomes.drop_last());
        assert(spec_costs(outcomes).drop_last() =~= spec_costs(outcomes.drop_last()));
        assert(outcomes[n] is Settled);
    }
}

/// A batch of N operations of which validation rejected operation `k` and
/// all others were settled tells one rejection, that of operation `k` with
/// the text of its rejection, and N - 1 settlements: those of the other
/// operations, in the order of the batch, each at its cost.
pub proof fn lemma_single_rejection_names(
    log: Seq<Event>,
    names: Seq<OpName>,
    outcomes: Seq<OpOutcome>,
    k: int,
)
    requires
        spec_log_names(log, names, outcomes),
        names.len() == outcomes.len(),
        0 <= k < outcomes.len(),
        outcomes[k] is Rejected,
        forall|j: int| 0 <= j < outcomes.len() && j != k ==> #[trigger] outcomes[j] is Settled,
    ensures
        rejected_in(log) == seq![
            (names[k].user_op_hash, spec_rejection_text(outcomes[k]->Rejected_0)),
        ],
        settled_in(log).len() == names.len() - 1,
        forall|j: int|
            0 <= j < names.len() - 1 ==> #[trigger] settled_in(log)[j] == (
                names.remove(k)[j],
                outcomes.remove(k)[j]->actual_gas_cost,
            ),
{
    let rejections = spec_rejections(outcomes);
    let others = outcomes.remove(k);
    let told = (names[k].user_op_hash, spec_rejection_text(outcomes[k]->Rejected_0));
    assert forall|j: int| 0 <= j < outcomes.len() && j != k implies #[trigger] rejections[j] is None by {
        assert(outcomes[j] is Settled);
    }
    lemma_only_rejected(names, rejections, k);
    assert forall|j: int| 0 <= j < outcomes.len() implies !(#[trigger] outcomes[j] is Unsettled) by {
        if j != k {
            assert(outcomes[j] is Settled);
        }
    }
    lemma_none_unsettled(names, outcomes);
    assert(seq![told] + Seq::<([u8; 32], Seq<u8>)>::empty() =~= seq![told]);
    lemma_settled_records_without(names, spec_costs(outcomes), k);
    assert(spec_costs(others) =~= spec_costs(outcomes).remove(k));
    assert forall|j: int| 0 <= j < others.len() implies #[trigger] others[j] is Settled by {
        if j < k {
            assert(others[j] == outcomes[j]);
        } else {
            assert(others[j] == outcomes[j + 1]);
        }
    }
    lemma_settled_records_of_all(names.remove(k), others);
}

/// A batch of N operations of which one was rejected and all others were
/// settled counts N - 1 settlements and one rejection, and its log tells
/// as many.
pub proof fn lemma_single_rejection(outcomes: Seq<OpOutcome>, k: int)
    requires
        0 <= k < outcomes.len(),
        outcomes[k] is Rejected,
        forall|j: int| 0 <= j < outcomes.len() && j != k ==> #[trigger] outcomes[j] is Settled,
    ensures
        spec_count_settled(spec_costs(outcomes)) == outcomes.len() - 1,
        spec_count_rejected(spec_accepted(outcomes)) + spec_count_unsettled(outcomes) == 1,
{
    lemma_unsettled_without(outcomes, k);
    let others = outcomes.remove(k);
    assert forall|j: int| 0 <= j < others.len() implies #[trigger] others[j] is Settled by {
        if j < k {
            assert(others[j] == outcomes[j]);
        } else {
            assert(others[j] == outcomes[j + 1]);
        }
    }
    lemma_all_settled(others);
    assert(spec_accepted(others) =~= spec_accepted(outcomes).remove(k));
    assert(spec_costs(others) =~= spec_costs(outcomes).remove(k));
    lemma_rejections_without(spec_accepted(outcomes), k);
    lemma_settlements_without(spec_costs(outcomes), k);
}

/// Settlement conserves what was deposited: an operation whose payer could
/// be charged the prefund and that was settled at `cost`, no more than the
/// prefund, leaves its payer's deposit lower by exactly `cost`. The prefund
/// less what went back is the cost.
pub proof fn lemma_settlement_conserves(ledgers: Ledgers, op: UserOperationView, cost: u64)
    requires
        spec_prefund(op) <= ledgers.deposits[spec_payer(op)].deposit,
        cost <= spec_prefund(op),
    ensures
        ({
            let payer = spec_payer(op);
            let charged = spec_charge(ledgers, op);
            let settled = spec_refund(charged, op, spec_prefund(op), cost);
            let refund = spec_prefund(op) - cost;
            &&& charged.deposits[payer].deposit == ledgers.deposits[payer].deposit - spec_prefund(op)
            &&& settled.deposits[payer].deposit == charged.deposits[payer].deposit + refund
            &&& settled.deposits[payer].deposit == ledgers.deposits[payer].deposit - cost
            &&& spec_prefund(op) - refund == cost
        }),
{
}

/// Settlement credits the payer alone, and once: where what of the prefund
/// was not spent fits the payer's deposit, the deposit rises by exactly
/// that, no other account's row changes, and no nonce does. The prefund
/// less what went back is the cost.
pub proof fn lemma_refund_credits_payer_alone(
    ledgers: Ledgers,
    op: UserOperationView,
    prefund: u64,
    cost: u64,
)
    requires
        cost <= prefund,
        ledgers.deposits[spec_payer(op)].deposit + (prefund - cost) <= Balance::MAX,
    ensures
        ({
            let payer = spec_payer(op);
            let settled = spec_refund(ledgers, op, prefund, cost);
            let refund = prefund - cost;
            &&& settled.deposits[payer].deposit == ledgers.deposits[payer].deposit + refund
            &&& prefund - refund == cost
            &&& settled.nonces == ledgers.nonces
            &&& forall|other: AccountId|
                other != payer ==> #[trigger] settled.deposits[other] == ledgers.deposits[other]
        }),
{
}

/// Whether `who` pays for no accepted operation of a batch, unless it be
/// for operation `but`.
pub open spec fn spec_pays_for_none_but(
    ops: Seq<UserOperationView>,
    accepted: Seq<bool>,
    who: AccountId,
    but: int,
) -> bool {
    forall|j: int|
        0 <= j < ops.len() && j != but && #[trigger] accepted[j] ==> spec_payer(ops[j]) != who
}

/// Charging a batch leaves the deposit of an account alone that pays for
/// none of its accepted operations.
pub proof fn lemma_charge_passes_by(
    ledgers: Ledgers,
    ops: Seq<UserOperationView>,
    accepted: Seq<bool>,
    who: AccountId,
)
    requires
        ops.len() == accepted.len(),
        spec_pays_for_none_but(ops, accepted, who, -1),
    ensures
        spec_charge_all(ledgers, ops, accepted).deposits[who] == ledgers.deposits[who],
    decreases ops.len(),
{
    if ops.len() > 0 {
        let n = ops.len() - 1;
        assert forall|j: int| 0 <= j < n && #[trigger] accepted.drop_last()[j] implies spec_payer(
            ops.drop_last()[j],
        ) != who by {
            assert(accepted[j]);
        }
        lemma_charge_passes_by(ledgers, ops.drop_last(), accepted.drop_last(), who);
        if accepted.last() {
            assert(accepted[n]);
        }
    }
}

/// Refunding a batch leaves the deposit of an account alone that paid for
/// none of its settled operations.
pub proof fn lemma_refund_passes_by(
    ledgers: Ledgers,
    ops: Seq<UserOperationView>,
    costs: Seq<Option<u64>>,
    who: AccountId,
)
    requires
        ops.len() == costs.len(),
        forall|j: int| 0 <= j < ops.len() && #[trigger] costs[j] is Some ==> spec_payer(ops[j]) != who,
    ensures
        spec_refund_all(ledgers, ops, costs).deposits[who] == ledgers.deposits[who],
    decreases ops.len(),
{
    if ops.len() > 0 {
        let n = ops.len() - 1;
        assert forall|j: int| 0 <= j < n && #[trigger] costs.drop_last()[j] is Some implies spec_payer(
            ops.drop_last()[j],
        ) != who by {
            assert(costs[j] is Some);
        }
        lemma_refund_passes_by(ledgers, ops.drop_last(), costs.drop_last(), who);
        if costs.last() is Some {
            assert(costs[n] is Some);
        }
    }
}

/// Charging a batch debits an account that pays for exactly one of its
/// accepted operations the prefund of that operation, once.
pub proof fn lemma_charge_of_one(
    ledgers: Ledgers,
    ops: Seq<UserOperationView>,
    accepted: Seq<bool>,
    k: int,
)
    requires
        ops.len() == accepted.len(),
        0 <= k < ops.len(),
        accepted[k],
        spec_pays_for_none_but(ops, accepted, spec_payer(ops[k]), k),
        spec_prefund(ops[k]) <= ledgers.deposits[spec_payer(ops[k])].deposit,
    ensures
        spec_charge_all(ledgers, ops, accepted).deposits[spec_payer(ops[k])].deposit
            == ledgers.deposits[spec_payer(ops[k])].deposit - spec_prefund(ops[k]),
    decreases ops.len(),
{
    let who = spec_payer(ops[k]);
    let n = ops.len() - 1;
    if k == n {
        assert forall|j: int| 0 <= j < n && #[trigger] accepted.drop_last()[j] implies spec_payer(
            ops.drop_last()[j],
        ) != who by {
            assert(accepted[j]);
        }
        lemma_charge_passes_by(ledgers, ops.drop_last(), accepted.drop_last(), who);
    } else {
        assert forall|j: int|
            0 <= j < n && j != k && #[trigger] accepted.drop_last()[j] implies spec_payer(
            ops.drop_last()[j],
        ) != who by {
            assert(accepted[j]);
        }
        assert(ops.drop_last()[k] == ops[k]);
        lemma_charge_of_one(ledgers, ops.drop_last(), accepted.drop_last(), k);
        if accepted.last() {
            assert(accepted[n]);
        }
    }
}

/// Refunding a batch credits an account that paid for exactly one of its
/// settled operations what of that operation's prefund was not spent, once.
pub proof fn lemma_refund_of_one(
    ledgers: Ledgers,
    ops: Seq<UserOperationView>,
    costs: Seq<Option<u64>>,
    k: int,
    cost: u64,
)
    requires
        ops.len() == costs.len(),
        0 <= k < ops.len(),
        costs[k] == Some(cost),
        cost <= spec_prefund(ops[k]),
        forall|j: int|
            0 <= j < ops.len() && j != k && #[trigger] costs[j] is Some ==> spec_payer(ops[j])
                != spec_payer(ops[k]),
        ledgers.deposits[spec_payer(ops[k])].deposit + (spec_prefund(ops[k]) - cost)
            <= Balance::MAX,
    ensures
        spec_refund_all(ledgers, ops, costs).deposits[spec_payer(ops[k])].deposit
            == ledgers.deposits[spec_payer(ops[k])].deposit + (spec_prefund(ops[k]) - cost),
    decreases ops.len(),
{
    let who = spec_payer(ops[k]);
    let n = ops.len() - 1;
    if k == n {
        assert forall|j: int| 0 <= j < n && #[trigger] costs.drop_last()[j] is Some implies spec_payer(
            ops.drop_last()[j],
        ) != who by {
            assert(costs[j] is Some);
        }
        lemma_refund_passes_by(ledgers, ops.drop_last(), costs.drop_last(), who);
    } else {
        assert forall|j: int|
            0 <= j < n && j != k && #[trigger] costs.drop_last()[j] is Some implies spec_payer(
            ops.drop_last()[j],
        ) != who by {
            assert(costs[j] is Some);
        }
        assert(ops.drop_last()[k] == ops[k]);
        assert(costs.drop_last()[k] == costs[k]);
        lemma_refund_of_one(ledgers, ops.drop_last(), costs.drop_last(), k, cost);
        if costs.last() is Some {
            assert(costs[n] is Some);
        }
    }
}

/// A batch conserves what was deposited, payer by payer: where the outcomes
/// are sound, an account that pays for operation `k`, settled at `cost`, and
/// for no other accepted operation of the batch has after the batch exactly
/// `cost` less on deposit than before it.
pub proof fn lemma_batch_conserves(
    ledgers: Ledgers,
    ops: Seq<UserOperationView>,
    outcomes: Seq<OpOutcome>,
    k: int,
    cost: u64,
)
    requires
        spec_outcomes_sound(ledgers, ops, outcomes),
        0 <= k < ops.len(),
        outcomes[k] == (OpOutcome::Settled { actual_gas_cost: cost }),
        spec_pays_for_none_but(ops, spec_accepted(outcomes), spec_payer(ops[k]), k),
    ensures
        spec_batch(ledgers, ops, outcomes).deposits[spec_payer(ops[k])].deposit
            == ledgers.deposits[spec_payer(ops[k])].deposit - cost,
{
    let who = spec_payer(ops[k]);
    let accepted = spec_accepted(outcomes);
    let costs = spec_costs(outcomes);
    assert(!(outcomes[k] is Rejected));
    assert forall|j: int| 0 <= j < k && #[trigger] accepted.take(k)[j] implies spec_payer(
        ops.take(k)[j],
    ) != who by {
        assert(accepted[j]);
    }
    lemma_charge_passes_by(ledgers, ops.take(k), accepted.take(k), who);
    assert(spec_acceptable(spec_ledgers_before(ledgers, ops, accepted, k), ops[k]));
    assert(accepted[k]);
    lemma_charge_of_one(ledgers, ops, accepted, k);
    assert forall|j: int| 0 <= j < ops.len() && j != k && #[trigger] costs[j] is Some implies spec_payer(
        ops[j],
    ) != who by {
        assert(!(outcomes[j] is Rejected));
        assert(accepted[j]);
    }
    lemma_refund_of_one(spec_charge_all(ledgers, ops, accepted), ops, costs, k, cost);
}

/// A batch leaves the deposit of an account alone that pays for none of its
/// accepted operations.
pub proof fn lemma_batch_passes_by(
    ledgers: Ledgers,
    ops: Seq<UserOperationView>,
    outcomes: Seq<OpOutcome>,
    who: AccountId,
)
    requires
        ops.len() == outcomes.len(),
        spec_pays_for_none_but(ops, spec_accepted(outcomes), who, -1),
    ensures
        spec_batch(ledgers, ops, outcomes).deposits[who] == ledgers.deposits[who],
{
    let accepted = spec_accepted(outcomes);
    let costs = spec_costs(outcomes);
    lemma_charge_passes_by(ledgers, ops, accepted, who);
    assert forall|j: int| 0 <= j < ops.len() && #[trigger] costs[j] is Some implies spec_payer(
        ops[j],
    ) != who by {
        assert(!(outcomes[j] is Rejected));
        assert(accepted[j]);
    }
    lemma_refund_passes_by(spec_charge_all(ledgers, ops, accepted), ops, costs, who);
}

/// Operations whose signatures one aggregator vouches for, with the signature that covers them all.
#[derive(Debug, PartialEq, Eq)]
pub struct UserOpsPerAggregator {
    /// The operations.
    pub user_ops: Vec<UserOperation>,
    /// Who vouches for their signatures.
    pub aggregator: Aggregator,
    /// The signature that covers them all.
    pub signature: Vec<u8>,
}

/// The operations of all groups, group after group.
pub open spec fn spec_group_ops(groups: Seq<UserOpsPerAggregator>) -> Seq<UserOperationView>
    decreases groups.len(),
{
    if groups.len() == 0 {
        Seq::empty()
    } else {
        spec_group_ops(groups.drop_last()) + spec_op_views(groups.last().user_ops@)
    }
}

/// Whom a group has to be vouched for by before its operations are
/// validated: a group that claims a failed verification fails the batch,
/// a group that names an aggregator has that aggregator asked, and a group
/// that vouches for itself has nobody asked.
pub open spec fn spec_aggregator_to_ask(group: UserOpsPerAggregator) -> Result<
    Option<AccountId>,
    Error,
> {
    match group.aggregator {
        Aggregator::FailedVerification => Err(Error::InvalidAggregator),
        Aggregator::VerifiedBy(address) => Ok(Some(address)),
        Aggregator::VerifiedBySelf => Ok(None),
    }
}

/// Tells whom a group has to be vouched for by; see `spec_aggregator_to_ask`.
pub fn aggregator_to_ask(group: &UserOpsPerAggregator) -> (ask: Result<Option<AccountId>, Error>)
    ensures
        ask == spec_aggregator_to_ask(*group),
{
    match group.aggregator {
        Aggregator::FailedVerification => Err(Error::InvalidAggregator),
        Aggregator::VerifiedBy(address) => Ok(Some(address)),
        Aggregator::VerifiedBySelf => Ok(None),
    }
}

/// Whether the host has no say in any group: every group vouches for
/// itself, so that no aggregator is asked, and holds no operation.
pub open spec fn spec_nothing_to_ask(groups: Seq<UserOpsPerAggregator>) -> bool {
    forall|g: int|
        0 <= g < groups.len() ==> (#[trigger] groups[g]).aggregator == Aggregator::VerifiedBySelf
            && groups[g].user_ops@.len() == 0
}

/// Groups that hold no operation hold none together.
pub proof fn lemma_no_operations(groups: Seq<UserOpsPerAggregator>)
    requires
        spec_nothing_to_ask(groups),
    ensures
        spec_group_ops(groups).len() == 0,
    decreases groups.len(),
{
    if groups.len() > 0 {
        assert forall|g: int| 0 <= g < groups.drop_last().len() implies (
        #[trigger] groups.drop_last()[g]).aggregator == Aggregator::VerifiedBySelf
            && groups.drop_last()[g].user_ops@.len() == 0 by {
            assert(groups.drop_last()[g] == groups[g]);
        }
        lemma_no_operations(groups.drop_last());
        assert(groups[groups.len() - 1].user_ops@.len() == 0);
    }
}

/// `n` times "accepted".
pub open spec fn spec_all_accepted(n: nat) -> Seq<bool> {
    Seq::new(n, |i: int| true)
}

impl EntryPoint {
    /// A copy of the coordinator with both its ledgers.
    pub fn snapshot(&self) -> (copy: Self)
        ensures
            copy@ == self@,
            copy.account_id == self.account_id,
    {
        EntryPoint {
            stake_manager: self.stake_manager.snapshot(),
            nonce_manager: self.nonce_manager.snapshot(),
            account_id: self.account_id,
        }
    }

    /// Puts the ledgers back to what `saved` holds.
    fn restore(&mut self, saved: EntryPoint)
        ensures
            final(self)@ == saved@,
            final(self).account_id == old(self).account_id,
    {
        self.stake_manager = saved.stake_manager;
        self.nonce_manager = saved.nonce_manager;
    }

    /// What is told of an operation that validation rejected for `e`: the
    /// operation's identifier and, as UTF-8 text, how `{:?}` renders the
    /// rejection.
    pub fn rejection(&self, user_op: &UserOperation, e: &Error) -> (told: Event)
        ensures
            told.is_rejection(),
            !told.is_settlement(),
            told matches Event::ReturnValue(value) && value.user_op_hash
                == crate::entry_point::spec_user_op_hash(user_op@, self.account_id) && value.result@
                == vstd::utf8::encode_utf8(crate::error::error_debug_text(e@)),
    {
        let text = debug_text(e);
        Event::ReturnValue(
            UserOperationReturnValue {
                user_op_hash: self.inner_get_user_op_hash(user_op),
                success: false,
                result: OpaqueTypes(text.as_str().as_bytes_vec()),
            },
        )
    }

    /// Ends the validation of an operation that was charged, given what the
    /// check of its sender's and sponsor's answers found: if they hold, the
    /// operation is accepted with `op_info`; if not, the charge is undone and
    /// the rejection handed on.
    fn finish_validation(
        &mut self,
        user_op: &UserOperation,
        op_info: UserOpInfo,
        saved_paymaster: DepositInfo,
        checked: Result<(), Error>,
        Ghost(before): Ghost<Ledgers>,
    ) -> (done: Result<UserOpInfo, Error>)
        requires
            old(self)@ == spec_charge(before, user_op@),
            spec_acceptable(before, user_op@),
            saved_paymaster == before.deposits[user_op@.paymaster_and_data.paymaster()],
            before.deposits.dom() == Set::<AccountId>::full(),
            before.nonces.dom() == Set::<(AccountId, Seq<u8>)>::full(),
        ensures
            final(self).account_id == old(self).account_id,
            match checked {
                Ok(()) => done == Ok::<UserOpInfo, Error>(op_info) && final(self)@ == old(self)@,
                Err(e) => done == Err::<UserOpInfo, Error>(e) && final(self)@ == before,
            },
    {
        match checked {
            Ok(()) => Ok(op_info),
            Err(e) => {
                let paymaster = user_op.paymaster_and_data.paymaster();
                self.stake_manager.set_deposit_info(paymaster, saved_paymaster);
                self.nonce_manager.set_nonce(
                    user_op.sender,
                    nonce_key(&user_op.nonce),
                    user_op.nonce,
                );
                proof {
                    assert(self@.deposits =~= before.deposits);
                    assert(self@.nonces =~= before.nonces);
                }
                Err(e)
            },
        }
    }

    /// Validates operation `op_index` of a batch whose signatures the
    /// aggregator `expected_aggregator` vouches for: the operation is
    /// validated as by `validate_prepayment`, and what sender and sponsor
    /// answered must hold at the time of the block, as
    /// `validate_account_and_paymaster_validation_data` says. An operation
    /// that is accepted is charged; one that is rejected leaves the ledgers
    /// as they stood.
    pub fn validate_op<H: Host>(
        &mut self,
        host: &mut H,
        op_index: u64,
        user_op: &UserOperation,
        expected_aggregator: Aggregator,
    ) -> (done: Result<UserOpInfo, Error>)
        ensures
            final(self).account_id == old(self).account_id,
            spec_required_prefund(user_op@) is Err ==> done == Err::<UserOpInfo, Error>(
                Error::GasValuesOverflow,
            ),
            match done {
                Err(e) => final(self)@ == old(self)@ && spec_validation_error_fits(
                    old(self)@,
                    user_op@,
                    e,
                    op_index,
                ),
                Ok(info) => {
                    &&& final(self)@ == spec_charge(old(self)@, user_op@)
                    &&& spec_acceptable(old(self)@, user_op@)
                    &&& info@.user_op == user_op@
                    &&& info@.prefund == spec_prefund(user_op@)
                    &&& info@.user_op_hash == crate::entry_point::spec_user_op_hash(
                        user_op@,
                        old(self).account_id,
                    )
                },
            },
    {
        let mut op_info = UserOpInfo::default();
        let saved_paymaster = self.get_deposit_info(user_op.paymaster_and_data.paymaster());
        let (validation_data, pm_validation_data) = match self.validate_prepayment(
            host,
            op_index,
            user_op,
            &mut op_info,
        ) {
            Ok(answers) => answers,
            Err(e) => {
                return Err(e);
            },
        };
        let now = host.block_timestamp();
        let checked = self.validate_account_and_paymaster_validation_data(
            op_index,
            validation_data,
            pm_validation_data,
            expected_aggregator,
            now,
        );
        proof {
            old(self).stake_manager.lemma_total();
            old(self).nonce_manager.lemma_total();
        }
        self.finish_validation(user_op, op_info, saved_paymaster, checked, Ghost(old(self)@))
    }

    /// Checks what the sender and the sponsor answered for operation
    /// `op_index`, which stands in `group`: the aggregator that the sender
    /// must claim is the group's own, the sponsor must claim none, and `now`
    /// must lie in both windows.
    pub fn validate_group_validation_data(
        &self,
        op_index: u64,
        group: &UserOpsPerAggregator,
        validation_data: ValidationData,
        paymaster_validation_data: ValidationData,
        now: Timestamp,
    ) -> (done: Result<(), Error>)
        ensures
            match spec_validation_fault(
                validation_data,
                paymaster_validation_data,
                group.aggregator,
                now,
            ) {
                None => done is Ok,
                Some(reason) => is_rejection(done, op_index, reason),
            },
    {
        self.validate_account_and_paymaster_validation_data(
            op_index,
            validation_data,
            paymaster_validation_data,
            group.aggregator,
            now,
        )
    }

    /// Validates operation `op_index` of a batch, which is the operation at
    /// place `at` of `group`: the operation is validated as by
    /// `validate_prepayment`, and what sender and sponsor answered must hold
    /// for the group at the time of the block, as
    /// `validate_group_validation_data` says. An operation that is accepted
    /// is charged; one that is rejected leaves the ledgers as they stood.
    pub fn validate_group_op<H: Host>(
        &mut self,
        host: &mut H,
        op_index: u64,
        group: &UserOpsPerAggregator,
        at: usize,
    ) -> (done: Result<UserOpInfo, Error>)
        requires
            at < group.user_ops@.len(),
        ensures
            final(self).account_id == old(self).account_id,
            spec_required_prefund(group.user_ops@[at as int]@) is Err ==> done == Err::<
                UserOpInfo,
                Error,
            >(Error::GasValuesOverflow),
            match done {
                Err(e) => final(self)@ == old(self)@ && spec_validation_error_fits(
                    old(self)@,
                    group.user_ops@[at as int]@,
                    e,
                    op_index,
                ),
                Ok(info) => {
                    &&& final(self)@ == spec_charge(old(self)@, group.user_ops@[at as int]@)
                    &&& spec_acceptable(old(self)@, group.user_ops@[at as int]@)
                    &&& info@.user_op == group.user_ops@[at as int]@
                    &&& info@.prefund == spec_prefund(group.user_ops@[at as int]@)
                    &&& info@.user_op_hash == crate::entry_point::spec_user_op_hash(
                        group.user_ops@[at as int]@,
                        old(self).account_id,
                    )
                },
            },
    {
        let user_op = &group.user_ops[at];
        let mut op_info = UserOpInfo::default();
        let saved_paymaster = self.get_deposit_info(user_op.paymaster_and_data.paymaster());
        let (validation_data, pm_validation_data) = match self.validate_prepayment(
            host,
            op_index,
            user_op,
            &mut op_info,
        ) {
            Ok(answers) => answers,
            Err(e) => {
                return Err(e);
            },
        };
        let now = host.block_timestamp();
        let checked = self.validate_group_validation_data(
            op_index,
            group,
            validation_data,
            pm_validation_data,
            now,
        );
        proof {
            old(self).stake_manager.lemma_total();
            old(self).nonce_manager.lemma_total();
        }
        self.finish_validation(user_op, op_info, saved_paymaster, checked, Ghost(old(self)@))
    }

    /// Works through a batch that no aggregator vouches for. Every
    /// operation is validated; one that is rejected is told and left out,
    /// and the batch goes on. Then the accepted operations are executed and
    /// settled in their order, and the fees go to `beneficiary`. What the
    /// batch makes of each execution is `record_execution`'s to say: an
    /// operation that fails to settle stays charged and is told as
    /// rejected, and the batch goes on. The call fails as a whole, with the
    /// ledgers as they stood before it, if the gas runs out, if the fees
    /// overflow, or if the beneficiary cannot be paid. An empty batch only
    /// pays the beneficiary. The log tells of each operation what became of
    /// it, under the operation's own name, as `spec_log_names` says.
    #[verifier::rlimit(50)]
    pub fn inner_handle_ops<H: Host>(
        &mut self,
        host: &mut H,
        ops: &Vec<UserOperation>,
        beneficiary: AccountId,
    ) -> (done: Result<BatchReceipt, Error>)
        ensures
            final(self).account_id == old(self).account_id,
            ops@.len() == 0 ==> if all_zero(beneficiary@) {
                done == Err::<BatchReceipt, Error>(Error::InvalidBeneficiary)
            } else {
                done is Ok || done == Err::<BatchReceipt, Error>(Error::FailedSendToBeneficiary)
            },
            match done {
                Ok(receipt) => {
                    &&& receipt.outcomes@.len() == ops@.len()
                    &&& spec_outcomes_sound(old(self)@, spec_op_views(ops@), receipt.outcomes@)
                    &&& final(self)@ == spec_batch(
                        old(self)@,
                        spec_op_views(ops@),
                        receipt.outcomes@,
                    )
                    &&& receipt.collected == spec_collected(spec_costs(receipt.outcomes@))
                    &&& spec_batch_log(
                        receipt.events@,
                        spec_count_rejected(spec_accepted(receipt.outcomes@)),
                    )
                    &&& count_rejections(receipt.events@) == spec_count_rejected(
                        spec_accepted(receipt.outcomes@),
                    ) + spec_count_unsettled(receipt.outcomes@)
                    &&& spec_log_names(
                        receipt.events@,
                        spec_op_names(spec_op_views(ops@), old(self).account_id),
                        receipt.outcomes@,
                    )
                    &&& count_settlements(receipt.events@) == spec_count_settled(
                        spec_costs(receipt.outcomes@),
                    )
                    &&& !all_zero(beneficiary@)
                },
                Err(e) => {
                    &&& final(self)@ == old(self)@
                    &&& e == Error::OutOfGas || e == Error::GasValuesOverflow || e
                        == Error::InvalidBeneficiary || e == Error::FailedSendToBeneficiary
                    &&& e == Error::InvalidBeneficiary ==> all_zero(beneficiary@)
                    &&& e == Error::FailedSendToBeneficiary ==> !all_zero(beneficiary@)
                },
            },
    {
        let saved = self.snapshot();
        let ghost start = self@;
        let ghost views = spec_op_views(ops@);
        let ghost names = spec_op_names(views, self.account_id);
        let n = ops.len();
        let mut verdicts: Vec<Option<UserOpInfo>> = Vec::new();
        let mut outcomes: Vec<OpOutcome> = Vec::new();
        let mut events: Vec<Event> = Vec::new();
        let mut i: usize = 0;
        while i < n
            invariant
                n == ops@.len(),
                views == spec_op_views(ops@),
                names == spec_op_names(views, old(self).account_id),
                rejected_in(events@) == spec_rejected_records(
                    names.take(i as int),
                    spec_rejections(outcomes@),
                ),
                settled_in(events@) == Seq::<(OpName, u64)>::empty(),
                forall|j: int|
                    0 <= j < i ==> (#[trigger] verdicts@[j] matches Some(info) ==> spec_op_name(
                        info@,
                    ) == names[j]),
                i <= n,
                outcomes@.len() == i,
                verdicts@.len() == i,
                self.account_id == old(self).account_id,
                self@ == spec_charge_all(start, views.take(i as int), spec_accepted(outcomes@)),
                forall|j: int|
                    0 <= j < i ==> (#[trigger] verdicts@[j] is Some) == !(outcomes@[j] is Rejected),
                forall|j: int| 0 <= j < i ==> !(#[trigger] outcomes@[j] is Settled),
                forall|j: int|
                    0 <= j < i ==> (#[trigger] verdicts@[j] matches Some(info) ==> info@.user_op
                        == views[j] && info@.prefund == spec_prefund(views[j])),
                forall|j: int|
                    0 <= j < i && !(#[trigger] outcomes@[j] is Rejected) ==> spec_acceptable(
                        spec_ledgers_before(start, views, spec_accepted(outcomes@), j),
                        views[j],
                    ),
                forall|j: int|
                    0 <= j < i && spec_required_prefund(views[j]) is Err ==> #[trigger] outcomes@[j]
                        == OpOutcome::Rejected(Error::GasValuesOverflow),
                forall|j: int|
                    0 <= j < i ==> (#[trigger] outcomes@[j] matches OpOutcome::Rejected(e)
                        ==> spec_validation_error_fits(
                        spec_ledgers_before(start, views, spec_accepted(outcomes@), j),
                        views[j],
                        e,
                        j as u64,
                    )),
                count_rejections(events@) == spec_count_rejected(spec_accepted(outcomes@)),
                count_settlements(events@) == 0,
                events@.len() == spec_count_rejected(spec_accepted(outcomes@)),
                forall|j: int| 0 <= j < events@.len() ==> (#[trigger] events@[j]).is_rejection(),
            decreases n - i,
        {
            let op = &ops[i];
            let ghost before = outcomes@;
            let ghost found = self@;
            let verdict = self.validate_op(host, i as u64, op, Aggregator::VerifiedBySelf);
            match verdict {
                Ok(info) => {
                    verdicts.push(Some(info));
                    // Stands in until the operation is executed below.
                    outcomes.push(OpOutcome::Unsettled(Error::OutOfGas));
                },
                Err(e) => {
                    let told = self.rejection(op, &e);
                    proof {
                        lemma_count_push(events@, told);
                    }
                    events.push(told);
                    verdicts.push(None);
                    outcomes.push(OpOutcome::Rejected(e));
                },
            }
            proof {
                assert(views.take(i + 1).drop_last() =~= views.take(i as int));
                assert(views.take(i + 1).last() == ops@[i as int]@);
                assert(spec_accepted(outcomes@).drop_last() =~= spec_accepted(before));
                assert(spec_rejections(outcomes@).drop_last() =~= spec_rejections(before));
                assert(names.take(i + 1).drop_last() =~= names.take(i as int));
                assert(names.take(i + 1).last() == names[i as int]);
                assert forall|j: int|
                    0 <= j < i + 1 && !(#[trigger] outcomes@[j] is Rejected) implies spec_acceptable(
                    spec_ledgers_before(start, views, spec_accepted(outcomes@), j),
                    views[j],
                ) by {
                    assert(spec_accepted(outcomes@).take(j) =~= spec_accepted(before).take(j));
                    if j < i {
                        assert(outcomes@[j] == before[j]);
                    }
                }
                assert forall|j: int| 0 <= j < i + 1 implies (
                #[trigger] outcomes@[j] matches OpOutcome::Rejected(e)
                    ==> spec_validation_error_fits(
                    spec_ledgers_before(start, views, spec_accepted(outcomes@), j),
                    views[j],
                    e,
                    j as u64,
                )) by {
                    assert(spec_accepted(outcomes@).take(j) =~= spec_accepted(before).take(j));
                    if j < i {
                        assert(outcomes@[j] == before[j]);
                    } else {
                        assert(spec_accepted(before).take(i as int) =~= spec_accepted(before));
                        assert(spec_ledgers_before(start, views, spec_accepted(outcomes@), j)
                            == found);
                    }
                }
            }
            i += 1;
        }
        proof {
            lemma_count_push(events@, Event::BeforeExecution(BeforeExecution {  }));
            assert(views.take(n as int) =~= views);
            assert(names.take(n as int) =~= names);
        }
        events.push(Event::BeforeExecution(BeforeExecution {  }));
        let ghost rejections = spec_rejections(outcomes@);
        let ghost rejected = spec_rejected_records(names, rejections);
        proof {
            assert(rejected + spec_unsettled_records(names.take(0), outcomes@.take(0))
                =~= rejected);
        }
        let ghost charged = self@;
        let ghost accepted = spec_accepted(outcomes@);
        let ghost told = events@;
        let ghost validated = outcomes@;
        assert(spec_rejections_fitted(start, views, validated)) by {
            reveal(spec_rejections_fitted);
        }
        assert forall|j: int| 0 <= j < n && #[trigger] accepted[j] implies spec_acceptable(
            spec_ledgers_before(start, views, accepted, j),
            views[j],
        ) by {
            assert(!(outcomes@[j] is Rejected));
        }
        let mut collected: u64 = 0;
        let mut i: usize = 0;
        while i < n
            invariant
                n == ops@.len(),
                views == spec_op_views(ops@),
                i <= n,
                outcomes@.len() == n,
                verdicts@.len() == n,
                self.account_id == old(self).account_id,
                saved@ == old(self)@,
                charged == spec_charge_all(start, views, accepted),
                start == old(self)@,
                spec_accepted(outcomes@) == accepted,
                forall|j: int|
                    0 <= j < n ==> (#[trigger] verdicts@[j] is Some) == !(outcomes@[j] is Rejected),
                forall|j: int| i <= j < n ==> !(#[trigger] outcomes@[j] is Settled),
                forall|j: int|
                    0 <= j < n ==> (#[trigger] verdicts@[j] matches Some(info) ==> info@.user_op
                        == views[j] && info@.prefund == spec_prefund(views[j])),
                self@ == spec_refund_all(
                    charged,
                    views.take(i as int),
                    spec_costs(outcomes@).take(i as int),
                ),
                collected == spec_collected(spec_costs(outcomes@).take(i as int)),
                forall|j: int|
                    0 <= j < n && #[trigger] accepted[j] ==> spec_acceptable(
                        spec_ledgers_before(start, views, accepted, j),
                        views[j],
                    ),
                forall|j: int|
                    0 <= j < n ==> (#[trigger] outcomes@[j] matches OpOutcome::Settled {
                        actual_gas_cost,
                    } ==> actual_gas_cost <= spec_prefund(views[j])),
                forall|j: int|
                    0 <= j < n && spec_required_prefund(views[j]) is Err ==> #[trigger] outcomes@[j]
                        == OpOutcome::Rejected(Error::GasValuesOverflow),
                validated.len() == n,
                spec_accepted(validated) == accepted,
                spec_rejections_fitted(start, views, validated),
                forall|j: int|
                    0 <= j < n && #[trigger] validated[j] is Rejected ==> outcomes@[j]
                        == validated[j],
                forall|j: int|
                    0 <= j < i ==> (#[trigger] outcomes@[j] matches OpOutcome::Unsettled(e)
                        ==> spec_is_settlement_error(e, j as u64)),
                count_rejections(events@) == spec_count_rejected(accepted) + spec_count_unsettled(
                    outcomes@.take(i as int),
                ),
                count_settlements(events@) == spec_count_settled(
                    spec_costs(outcomes@).take(i as int),
                ),
                names == spec_op_names(views, old(self).account_id),
                spec_rejections(outcomes@) == rejections,
                rejected == spec_rejected_records(names, rejections),
                rejected_in(events@) == rejected + spec_unsettled_records(
                    names.take(i as int),
                    outcomes@.take(i as int),
                ),
                settled_in(events@) == spec_settled_records(
                    names.take(i as int),
                    spec_costs(outcomes@).take(i as int),
                ),
                forall|j: int|
                    0 <= j < n ==> (#[trigger] verdicts@[j] matches Some(info) ==> spec_op_name(
                        info@,
                    ) == names[j]),
                spec_batch_log(told, spec_count_rejected(accepted)),
                told.len() == spec_count_rejected(accepted) + 1,
                told.len() <= events@.len(),
                events@.subrange(0, told.len() as int) == told,
            decreases n - i,
        {
            let ghost costs_before = spec_costs(outcomes@);
            let ghost outcomes_before = outcomes@;
            let ghost log_before = events@;
            match &verdicts[i] {
                Some(info) => {
                    let answer = self.execute_user_op(host, &mut events, i as u64, &ops[i], info);
                    let ghost log_executed = events@;
                    match record_execution(collected, answer) {
                        Ok((sum, outcome)) => {
                            collected = sum;
                            match &outcome {
                                OpOutcome::Unsettled(e) => {
                                    let told_of = self.rejection(&ops[i], e);
                                    proof {
                                        lemma_count_push(events@, told_of);
                                        let unsettled = spec_unsettled_records(
                                            names.take(i as int),
                                            outcomes@.take(i as int),
                                        );
                                        let record = (
                                            names[i as int].user_op_hash,
                                            spec_rejection_text(*e),
                                        );
                                        assert((rejected + unsettled).push(record) =~= rejected
                                            + unsettled.push(record));
                                    }
                                    events.push(told_of);
                                },
                                _ => {},
                            }
                            outcomes[i] = outcome;
                            proof {
                                assert(events@.subrange(0, log_before.len() as int) =~= log_before)
                                    by {
                                    assert(log_executed.subrange(0, log_before.len() as int)
                                        == log_before);
                                    assert forall|j: int| 0 <= j < log_before.len() implies events@[j]
                                        == log_before[j] by {
                                        assert(log_executed.subrange(0, log_before.len() as int)[j]
                                            == log_executed[j]);
                                    }
                                }
                            }
                        },
                        Err(e) => {
                            self.restore(saved);
                            return Err(e);
                        },
                    }
                },
                None => {},
            }
            proof {
                let costs = spec_costs(outcomes@);
                assert(views.take(i + 1).drop_last() =~= views.take(i as int));
                assert(views.take(i + 1).last() == views[i as int]);
                assert(costs.take(i + 1).drop_last() =~= costs_before.take(i as int));
                assert(costs.take(i as int) =~= costs_before.take(i as int));
                assert(spec_accepted(outcomes@) =~= accepted);
                assert(spec_rejections(outcomes@) =~= rejections);
                assert(outcomes@.take(i + 1).drop_last() =~= outcomes_before.take(i as int));
                assert(outcomes@.take(i + 1).last() == outcomes@[i as int]);
                assert(names.take(i + 1).drop_last() =~= names.take(i as int));
                assert(names.take(i + 1).last() == names[i as int]);
                assert(costs.take(i + 1).last() == costs[i as int]);
                assert(events@.subrange(0, log_before.len() as int) == log_before);
                assert(events@.subrange(0, told.len() as int) =~= told) by {
                    assert forall|j: int| 0 <= j < told.len() implies events@[j] == told[j] by {
                        assert(events@.subrange(0, log_before.len() as int)[j] == events@[j]);
                        assert(log_before.subrange(0, told.len() as int)[j] == log_before[j]);
                    }
                }
            }
            i += 1;
        }
        proof {
            assert(views.take(n as int) =~= views);
            assert(spec_costs(outcomes@).take(n as int) =~= spec_costs(outcomes@));
            assert forall|j: int|
                0 <= j < n && !(#[trigger] outcomes@[j] is Rejected) implies spec_acceptable(
                spec_ledgers_before(start, views, spec_accepted(outcomes@), j),
                views[j],
            ) by {
                assert(accepted[j]);
            }
            assert(outcomes@.take(n as int) =~= outcomes@);
            assert(names.take(n as int) =~= names);
            assert(spec_rejections_fit(start, views, outcomes@)) by {
                reveal(spec_rejections_fitted);
                assert forall|j: int| 0 <= j < n && #[trigger] outcomes@[j] is Rejected implies outcomes@[j]
                    == validated[j] by {
                    assert(!accepted[j]);
                    assert(!spec_accepted(validated)[j]);
                    assert(validated[j] is Rejected);
                }
            }
            assert(spec_batch_log(events@, spec_count_rejected(accepted))) by {
                let rejected = spec_count_rejected(accepted);
                assert forall|j: int| 0 <= j < told.len() implies events@[j] == told[j] by {
                    assert(events@.subrange(0, told.len() as int)[j] == events@[j]);
                }
                assert forall|j: int| 0 <= j < rejected implies (#[trigger] events@[j]).is_rejection() by {
                    assert(told[j].is_rejection());
                }
                assert(events@[rejected as int] == told[rejected as int]);
            }
        }
        match self.compensate(host, beneficiary, collected as Balance) {
            Ok(()) => {},
            Err(e) => {
                self.restore(saved);
                return Err(e);
            },
        }
        Ok(BatchReceipt { outcomes, events, collected })
    }

    /// Works through groups of operations, each group vouched for by its
    /// aggregator. Group after group, the aggregator that `aggregator_to_ask`
    /// names is asked whether the group's signature covers its operations,
    /// and each operation is validated for its group, as `validate_group_op`
    /// says. Then all operations are executed and settled in their order,
    /// each recorded as `record_group_execution` says, and the fees go to
    /// `beneficiary`. Nothing is left out: if a group claims a failed
    /// verification, if an aggregator refuses, or if any operation fails to
    /// validate or to settle, the call fails as a whole, with the ledgers as
    /// they stood before it. Where no group names an aggregator or holds
    /// an operation, the host is asked for nothing but to pay the
    /// beneficiary: the zero account is refused with `InvalidBeneficiary`,
    /// and any other is paid or the call fails with
    /// `FailedSendToBeneficiary`.
    #[verifier::rlimit(50)]
    pub fn inner_handle_aggregated_ops<H: Host>(
        &mut self,
        host: &mut H,
        ops_per_aggregator: Vec<UserOpsPerAggregator>,
        beneficiary: AccountId,
    ) -> (done: Result<BatchReceipt, Error>)
        ensures
            final(self).account_id == old(self).account_id,
            ops_per_aggregator@.len() > 0 && ops_per_aggregator@[0].aggregator
                == Aggregator::FailedVerification ==> done == Err::<BatchReceipt, Error>(
                Error::InvalidAggregator,
            ),
            spec_nothing_to_ask(ops_per_aggregator@) ==> if all_zero(beneficiary@) {
                done == Err::<BatchReceipt, Error>(Error::InvalidBeneficiary)
            } else {
                done is Ok || done == Err::<BatchReceipt, Error>(Error::FailedSendToBeneficiary)
            },
            match done {
                Ok(receipt) => {
                    &&& receipt.outcomes@.len() == spec_group_ops(ops_per_aggregator@).len()
                    &&& forall|j: int|
                        0 <= j < receipt.outcomes@.len() ==> #[trigger] receipt.outcomes@[j]
                            is Settled
                    &&& forall|g: int|
                        0 <= g < ops_per_aggregator@.len() ==> (
                        #[trigger] ops_per_aggregator@[g]).aggregator
                            != Aggregator::FailedVerification
                    &&& spec_outcomes_sound(
                        old(self)@,
                        spec_group_ops(ops_per_aggregator@),
                        receipt.outcomes@,
                    )
                    &&& final(self)@ == spec_batch(
                        old(self)@,
                        spec_group_ops(ops_per_aggregator@),
                        receipt.outcomes@,
                    )
                    &&& receipt.collected == spec_collected(spec_costs(receipt.outcomes@))
                    &&& spec_batch_log(receipt.events@, 0)
                    &&& count_rejections(receipt.events@) == 0
                    &&& spec_log_names(
                        receipt.events@,
                        spec_op_names(spec_group_ops(ops_per_aggregator@), old(self).account_id),
                        receipt.outcomes@,
                    )
                    &&& count_settlements(receipt.events@) == spec_count_settled(
                        spec_costs(receipt.outcomes@),
                    )
                    &&& !all_zero(beneficiary@)
                },
                Err(_) => final(self)@ == old(self)@,
            },
    {
        let saved = self.snapshot();
        let ghost start = self@;
        let ghost groups = ops_per_aggregator@;
        let mut infos: Vec<UserOpInfo> = Vec::new();
        let mut g: usize = 0;
        while g < ops_per_aggregator.len()
            invariant
                groups == ops_per_aggregator@,
                g <= groups.len(),
                self.account_id == old(self).account_id,
                saved@ == old(self)@,
                start == old(self)@,
                infos@.len() == spec_group_ops(groups.take(g as int)).len(),
                self@ == spec_charge_all(
                    start,
                    spec_group_ops(groups.take(g as int)),
                    spec_all_accepted(infos@.len() as nat),
                ),
                forall|j: int|
                    0 <= j < infos@.len() ==> (#[trigger] infos@[j])@.user_op == spec_group_ops(
                        groups.take(g as int),
                    )[j] && infos@[j]@.prefund == spec_prefund(infos@[j]@.user_op),
                forall|j: int|
                    0 <= j < infos@.len() ==> (#[trigger] infos@[j])@.user_op_hash
                        == crate::entry_point::spec_user_op_hash(
                        infos@[j]@.user_op,
                        old(self).account_id,
                    ),
                forall|j: int|
                    0 <= j < infos@.len() ==> spec_acceptable(
                        #[trigger] spec_ledgers_before(
                            start,
                            spec_group_ops(groups.take(g as int)),
                            spec_all_accepted(infos@.len() as nat),
                            j,
                        ),
                        spec_group_ops(groups.take(g as int))[j],
                    ),
                forall|h: int|
                    0 <= h < g ==> (#[trigger] groups[h]).aggregator != Aggregator::FailedVerification,
            decreases groups.len() - g,
        {
            let opa = &ops_per_aggregator[g];
            let ghost earlier = spec_group_ops(groups.take(g as int));
            assert(groups[g as int] == *opa);
            match aggregator_to_ask(opa) {
                Err(e) => {
                    self.restore(saved);
                    return Err(e);
                },
                Ok(Some(address)) => {
                    match host.validate_signatures(address, &opa.user_ops, &opa.signature) {
                        Ok(()) => {},
                        Err(e) => {
                            self.restore(saved);
                            return Err(e);
                        },
                    }
                },
                Ok(None) => {},
            }
            let ghost group_views = spec_op_views(opa.user_ops@);
            let mut j: usize = 0;
            while j < opa.user_ops.len()
                invariant
                    groups == ops_per_aggregator@,
                    g < groups.len(),
                    *opa == groups[g as int],
                    forall|h: int|
                        0 <= h <= g ==> (#[trigger] groups[h]).aggregator
                            != Aggregator::FailedVerification,
                    group_views == spec_op_views(opa.user_ops@),
                    earlier == spec_group_ops(groups.take(g as int)),
                    j <= opa.user_ops@.len(),
                    self.account_id == old(self).account_id,
                    saved@ == old(self)@,
                    start == old(self)@,
                    infos@.len() == earlier.len() + j,
                    self@ == spec_charge_all(
                        start,
                        earlier + group_views.take(j as int),
                        spec_all_accepted(infos@.len() as nat),
                    ),
                    forall|k: int|
                        0 <= k < infos@.len() ==> (#[trigger] infos@[k])@.user_op == (earlier
                            + group_views.take(j as int))[k] && infos@[k]@.prefund == spec_prefund(
                            infos@[k]@.user_op,
                        ),
                    forall|k: int|
                        0 <= k < infos@.len() ==> (#[trigger] infos@[k])@.user_op_hash
                            == crate::entry_point::spec_user_op_hash(
                            infos@[k]@.user_op,
                            old(self).account_id,
                        ),
                    forall|k: int|
                        0 <= k < infos@.len() ==> spec_acceptable(
                            #[trigger] spec_ledgers_before(
                                start,
                                earlier + group_views.take(j as int),
                                spec_all_accepted(infos@.len() as nat),
                                k,
                            ),
                            (earlier + group_views.take(j as int))[k],
                        ),
                decreases opa.user_ops@.len() - j,
            {
                let op = &opa.user_ops[j];
                let ghost so_far = earlier + group_views.take(j as int);
                let op_index = infos.len() as u64;
                let op_info = match self.validate_group_op(host, op_index, opa, j) {
                    Ok(info) => info,
                    Err(e) => {
                        self.restore(saved);
                        assert(groups[g as int].user_ops@.len() > 0);
                        return Err(e);
                    },
                };
                infos.push(op_info);
                proof {
                    let now = earlier + group_views.take(j + 1);
                    let flags = spec_all_accepted(infos@.len() as nat);
                    let flags_before = spec_all_accepted((infos@.len() - 1) as nat);
                    assert(now.drop_last() =~= so_far);
                    assert(now.last() == op@);
                    assert(flags.drop_last() =~= flags_before);
                    assert forall|k: int| 0 <= k < infos@.len() implies spec_acceptable(
                        #[trigger] spec_ledgers_before(start, now, flags, k),
                        now[k],
                    ) by {
                        assert(now.take(k) =~= so_far.take(k));
                        assert(flags.take(k) =~= flags_before.take(k));
                        if k == infos@.len() - 1 {
                            assert(so_far.take(k) =~= so_far);
                            assert(flags_before.take(k) =~= flags_before);
                        } else {
                            assert(spec_ledgers_before(start, now, flags, k)
                                == spec_ledgers_before(start, so_far, flags_before, k));
                        }
                    }
                }
                j += 1;
            }
            proof {
                assert(groups.take(g + 1).drop_last() =~= groups.take(g as int));
                assert(groups.take(g + 1).last() == groups[g as int]);
                assert(group_views.take(j as int) =~= group_views);
            }
            g += 1;
        }
        let ghost flat = spec_group_ops(groups);
        let ghost charged = self@;
        proof {
            assert(groups.take(g as int) =~= groups);
        }
        let n = infos.len();
        proof {
            if spec_nothing_to_ask(groups) {
                lemma_no_operations(groups);
            }
        }
        let ghost names = spec_op_names(flat, self.account_id);
        let mut events: Vec<Event> = Vec::new();
        proof {
            lemma_count_push(events@, Event::BeforeExecution(BeforeExecution {  }));
        }
        events.push(Event::BeforeExecution(BeforeExecution {  }));
        let mut outcomes: Vec<OpOutcome> = Vec::new();
        let mut collected: u64 = 0;
        let mut k: usize = 0;
        while k < n
            invariant
                groups == ops_per_aggregator@,
                flat == spec_group_ops(groups),
                forall|h: int|
                    0 <= h < groups.len() ==> (#[trigger] groups[h]).aggregator
                        != Aggregator::FailedVerification,
                spec_nothing_to_ask(groups) ==> n == 0,
                n == infos@.len(),
                n == flat.len(),
                k <= n,
                outcomes@.len() == k,
                self.account_id == old(self).account_id,
                saved@ == old(self)@,
                start == old(self)@,
                charged == spec_charge_all(start, flat, spec_all_accepted(n as nat)),
                forall|j: int|
                    0 <= j < n ==> (#[trigger] infos@[j])@.user_op == flat[j] && infos@[j]@.prefund
                        == spec_prefund(infos@[j]@.user_op),
                forall|j: int|
                    0 <= j < n ==> (#[trigger] infos@[j])@.user_op_hash
                        == crate::entry_point::spec_user_op_hash(
                        infos@[j]@.user_op,
                        old(self).account_id,
                    ),
                names == spec_op_names(flat, old(self).account_id),
                rejected_in(events@) == Seq::<([u8; 32], Seq<u8>)>::empty(),
                settled_in(events@) == spec_settled_records(
                    names.take(k as int),
                    spec_costs(outcomes@),
                ),
                forall|j: int| 0 <= j < k ==> #[trigger] outcomes@[j] is Settled,
                forall|j: int|
                    0 <= j < n ==> spec_acceptable(
                        #[trigger] spec_ledgers_before(
                            start,
                            flat,
                            spec_all_accepted(n as nat),
                            j,
                        ),
                        flat[j],
                    ),
                forall|j: int|
                    0 <= j < k ==> (#[trigger] outcomes@[j] matches OpOutcome::Settled {
                        actual_gas_cost,
                    } ==> actual_gas_cost <= spec_prefund(flat[j])),
                self@ == spec_refund_all(charged, flat.take(k as int), spec_costs(outcomes@)),
                collected == spec_collected(spec_costs(outcomes@)),
                count_rejections(events@) == 0,
                count_settlements(events@) == spec_count_settled(spec_costs(outcomes@)),
                events@.len() >= 1,
                events@[0] == Event::BeforeExecution(BeforeExecution {  }),
                forall|j: int| 1 <= j < events@.len() ==> !(#[trigger] events@[j]).is_rejection(),
            decreases n - k,
        {
            let ghost costs_before = spec_costs(outcomes@);
            let ghost log_before = events@;
            let info = &infos[k];
            let answer = self.execute_user_op(host, &mut events, k as u64, &info.user_op, info);
            match record_group_execution(collected, answer) {
                Ok((sum, outcome)) => {
                    collected = sum;
                    outcomes.push(outcome);
                },
                Err(e) => {
                    self.restore(saved);
                    return Err(e);
                },
            }
            proof {
                assert(flat.take(k + 1).drop_last() =~= flat.take(k as int));
                assert(flat.take(k + 1).last() == flat[k as int]);
                assert(spec_costs(outcomes@).drop_last() =~= costs_before);
                assert(names.take(k + 1).drop_last() =~= names.take(k as int));
                assert(names.take(k + 1).last() == names[k as int]);
                assert(events@.subrange(0, log_before.len() as int) == log_before);
                assert(events@.subrange(0, log_before.len() as int)[0] == events@[0]);
                assert forall|j: int| 1 <= j < events@.len() implies !(
                #[trigger] events@[j]).is_rejection() by {
                    if j < log_before.len() {
                        assert(events@.subrange(0, log_before.len() as int)[j] == events@[j]);
                    }
                }
            }
            k += 1;
        }
        proof {
            assert(flat.take(n as int) =~= flat);
            assert(names.take(n as int) =~= names);
            lemma_all_settled_names_none(names, outcomes@);
            assert(spec_accepted(outcomes@) =~= spec_all_accepted(n as nat));
            assert forall|j: int|
                0 <= j < n && spec_required_prefund(flat[j]) is Err implies #[trigger] outcomes@[j]
                == OpOutcome::Rejected(Error::GasValuesOverflow) by {
                assert(spec_acceptable(
                    spec_ledgers_before(start, flat, spec_all_accepted(n as nat), j),
                    flat[j],
                ));
            }
        }
        match self.compensate(host, beneficiary, collected as Balance) {
            Ok(()) => {},
            Err(e) => {
                self.restore(saved);
                return Err(e);
            },
        }
        Ok(BatchReceipt { outcomes, events, collected })
    }

    /// Works through groups of operations, each vouched for by its
    /// aggregator, and pays the fees to `beneficiary`, as
    /// `inner_handle_aggregated_ops` does: a first group that claims a
    /// failed verification fails the call with `InvalidAggregator` before
    /// anything is asked of the host; the call succeeds only if no group
    /// claims one, every operation was settled and the beneficiary, which
    /// is not the zero account, was paid; whenever it fails, the ledgers
    /// stand as they stood. Where no group names an aggregator or holds an
    /// operation, only the payment is left to the host: the zero account
    /// is refused with `InvalidBeneficiary`.
    pub fn handle_aggregated_ops<H: Host>(
        &mut self,
        host: &mut H,
        ops_per_aggregator: Vec<UserOpsPerAggregator>,
        beneficiary: AccountId,
    ) -> (done: Result<BatchReceipt, Error>)
        ensures
            final(self).account_id == old(self).account_id,
            ops_per_aggregator@.len() > 0 && ops_per_aggregator@[0].aggregator
                == Aggregator::FailedVerification ==> done == Err::<BatchReceipt, Error>(
                Error::InvalidAggregator,
            ),
            spec_nothing_to_ask(ops_per_aggregator@) ==> if all_zero(beneficiary@) {
                done == Err::<BatchReceipt, Error>(Error::InvalidBeneficiary)
            } else {
                done is Ok || done == Err::<BatchReceipt, Error>(Error::FailedSendToBeneficiary)
            },
            match done {
                Ok(receipt) => {
                    &&& receipt.outcomes@.len() == spec_group_ops(ops_per_aggregator@).len()
                    &&& forall|j: int|
                        0 <= j < receipt.outcomes@.len() ==> #[trigger] receipt.outcomes@[j]
                            is Settled
                    &&& forall|g: int|
                        0 <= g < ops_per_aggregator@.len() ==> (
                        #[trigger] ops_per_aggregator@[g]).aggregator
                            != Aggregator::FailedVerification
                    &&& spec_outcomes_sound(
                        old(self)@,
                        spec_group_ops(ops_per_aggregator@),
                        receipt.outcomes@,
                    )
                    &&& final(self)@ == spec_batch(
                        old(self)@,
                        spec_group_ops(ops_per_aggregator@),
                        receipt.outcomes@,
                    )
                    &&& receipt.collected == spec_collected(spec_costs(receipt.outcomes@))
                    &&& spec_batch_log(receipt.events@, 0)
                    &&& count_rejections(receipt.events@) == 0
                    &&& spec_log_names(
                        receipt.events@,
                        spec_op_names(spec_group_ops(ops_per_aggregator@), old(self).account_id),
                        receipt.outcomes@,
                    )
                    &&& count_settlements(receipt.events@) == spec_count_settled(
                        spec_costs(receipt.outcomes@),
                    )
                    &&& !all_zero(beneficiary@)
                },
                Err(_) => final(self)@ == old(self)@,
            },
    {
        self.inner_handle_aggregated_ops(host, ops_per_aggregator, beneficiary)
    }

    /// Works through a batch of operations and pays the fees to
    /// `beneficiary`; see `inner_handle_ops`.
    pub fn handle_ops<H: Host>(
        &mut self,
        host: &mut H,
        ops: Vec<UserOperation>,
        beneficiary: AccountId,
    ) -> (done: Result<BatchReceipt, Error>)
        ensures
            final(self).account_id == old(self).account_id,
            ops@.len() == 0 ==> if all_zero(beneficiary@) {
                done == Err::<BatchReceipt, Error>(Error::InvalidBeneficiary)
            } else {
                done is Ok || done == Err::<BatchReceipt, Error>(Error::FailedSendToBeneficiary)
            },
            match done {
                Ok(receipt) => {
                    &&& receipt.outcomes@.len() == ops@.len()
                    &&& spec_outcomes_sound(old(self)@, spec_op_views(ops@), receipt.outcomes@)
                    &&& final(self)@ == spec_batch(
                        old(self)@,
                        spec_op_views(ops@),
                        receipt.outcomes@,
                    )
                    &&& receipt.collected == spec_collected(spec_costs(receipt.outcomes@))
                    &&& spec_batch_log(
                        receipt.events@,
                        spec_count_rejected(spec_accepted(receipt.outcomes@)),
                    )
                    &&& count_rejections(receipt.events@) == spec_count_rejected(
                        spec_accepted(receipt.outcomes@),
                    ) + spec_count_unsettled(receipt.outcomes@)
                    &&& spec_log_names(
                        receipt.events@,
                        spec_op_names(spec_op_views(ops@), old(self).account_id),
                        receipt.outcomes@,
                    )
                    &&& count_settlements(receipt.events@) == spec_count_settled(
                        spec_costs(receipt.outcomes@),
                    )
                    &&& !all_zero(beneficiary@)
                },
                Err(e) => {
                    &&& final(self)@ == old(self)@
                    &&& e == Error::OutOfGas || e == Error::GasValuesOverflow || e
                        == Error::InvalidBeneficiary || e == Error::FailedSendToBeneficiary
                    &&& e == Error::InvalidBeneficiary ==> all_zero(beneficiary@)
                    &&& e == Error::FailedSendToBeneficiary ==> !all_zero(beneficiary@)
                },
            },
    {
        self.inner_handle_ops(host, &ops, beneficiary)
    }
}

} // verus!
