//! Execution of one accepted operation: its call is made, and what it cost
//! is settled against the prefund.

use vstd::prelude::*;
use crate::env::Balance;
use crate::entry_point::{gas_spent, spec_payer, spec_refund, EntryPoint, Ledgers, UserOpInfo, UserOpInfoView, EXECUTION_OVERHEAD_GAS};
use crate::error::{append_decimal, debug_text, decimal_digits, error_debug_text, failed_op, is_rejection, spec_is_settlement_error, Error};
use crate::events::{count_rejections, count_settlements, lemma_count_push, rejected_in, settled_in, Event, OpName, UserOperationEvent, UserOperationReturnValue, UserOperationRevertReason};
use crate::exec::{OpaqueTypes, Transaction};
use crate::host::{Host, PostOpMode};
use crate::stake_manager::DepositInfo;
use crate::user_operation::{UserOperation, UserOperationView};
use crate::codec::copy_bytes;

verus! {

/// The row of a deposit after `amount` was added to it.
pub open spec fn spec_credited(info: DepositInfo, amount: Balance) -> DepositInfo {
    DepositInfo { deposit: (info.deposit + amount) as Balance, ..info }
}

/// What is told of an operation that was settled at `cost` after it used `gas`.
pub open spec fn spec_settlement_event(
    info: UserOpInfoView,
    mode: PostOpMode,
    cost: u64,
    gas: u64,
) -> UserOperationEvent {
    UserOperationEvent {
        user_op_hash: info.user_op_hash,
        sender: info.user_op.sender,
        paymaster: info.user_op.paymaster_and_data.paymaster(),
        nonce: info.user_op.nonce,
        success: mode == PostOpMode::OpSucceeded,
        actual_gas_cost: cost,
        actual_gas_used: gas,
    }
}

/// Whether a log is an older log with more events after it, none of them a rejection.
pub open spec fn spec_log_grew(before: Seq<Event>, after: Seq<Event>, settlements: nat) -> bool {
    &&& before.len() <= after.len()
    &&& after.subrange(0, before.len() as int) == before
    &&& forall|j: int| before.len() <= j < after.len() ==> !(#[trigger] after[j]).is_rejection()
    &&& count_rejections(after) == count_rejections(before)
    &&& count_settlements(after) == count_settlements(before) + settlements
}

/// By what the settlement of an operation names it.
pub open spec fn spec_op_name(info: UserOpInfoView) -> OpName {
    OpName {
        user_op_hash: info.user_op_hash,
        sender: info.user_op.sender,
        paymaster: info.user_op.paymaster_and_data.paymaster(),
        nonce: info.user_op.nonce,
    }
}

/// Whether the log `after` tells the rejections that the log `before`
/// tells, and the settlements that `before` tells with `told` behind them,
/// if there is one.
pub open spec fn spec_log_told(
    before: Seq<Event>,
    after: Seq<Event>,
    told: Option<(OpName, u64)>,
) -> bool {
    &&& rejected_in(after) == rejected_in(before)
    &&& settled_in(after) == match told {
        Some(record) => settled_in(before).push(record),
        None => settled_in(before),
    }
}

/// Whether `after` is the log `before` with the settlement of an operation
/// told at its end: settled at `cost`, which is what some amount of gas, no
/// less than `least_gas`, costs at the price the operation pays.
pub open spec fn spec_told_settlement(
    before: Seq<Event>,
    after: Seq<Event>,
    info: UserOpInfoView,
    mode: PostOpMode,
    cost: u64,
    least_gas: u64,
) -> bool {
    exists|gas: u64|
        gas >= least_gas && gas * info.user_op.gas_price() == cost && after == before.push(
            Event::Operation(#[trigger] spec_settlement_event(info, mode, cost, gas)),
        )
}

/// The call an operation asks for: to its callee and selector, with its
/// call data, within its call gas limit, with no value sent along.
pub fn call_of(user_op: &UserOperation) -> (call: Transaction)
    ensures
        call.callee == user_op@.callee,
        call.selector == user_op@.selector,
        call.input@ == user_op@.call_data,
        call.gas_limit == user_op@.call_gas_limit,
        call.transferred_value == 0,
        !call.allow_reentry,
{
    Transaction::new(
        user_op.callee,
        user_op.selector,
        copy_bytes(user_op.call_data.as_slice()),
        user_op.call_gas_limit,
    )
}

/// What the sponsor is told an operation cost when its post-operation hook
/// is called: the gas used so far at the price the operation pays.
pub fn post_op_cost(user_op: &UserOperation, actual_gas: u64) -> (cost: Balance)
    ensures
        cost == actual_gas * user_op@.gas_price(),
{
    let gas_price = user_op.gas_price();
    assert(actual_gas * gas_price <= u64::MAX * u64::MAX) by (nonlinear_arith)
        requires
            actual_gas <= u64::MAX,
            gas_price <= u64::MAX,
    ;
    (actual_gas as Balance) * (gas_price as Balance)
}

/// What is told of the call of an operation, and how the operation is
/// settled after it: a call that returned is told with what it returned
/// and settled as one that succeeded, a call that failed is told with the
/// reason and settled as one that reverted.
pub fn call_outcome(op_info: &UserOpInfo, answer: Result<OpaqueTypes, Vec<u8>>) -> (outcome: (
    Event,
    PostOpMode,
))
    ensures
        !outcome.0.is_rejection(),
        !outcome.0.is_settlement(),
        match answer {
            Ok(result) => outcome.1 == PostOpMode::OpSucceeded && outcome.0 == Event::ReturnValue(
                UserOperationReturnValue {
                    user_op_hash: op_info@.user_op_hash,
                    success: true,
                    result,
                },
            ),
            Err(reason) => outcome.1 == PostOpMode::OpReverted && outcome.0 == Event::RevertReason(
                UserOperationRevertReason {
                    user_op_hash: op_info@.user_op_hash,
                    sender: op_info@.user_op.sender,
                    nonce: op_info@.user_op.nonce,
                    revert_reason: reason,
                },
            ),
        },
{
    match answer {
        Ok(result) => (
            Event::ReturnValue(
                UserOperationReturnValue {
                    user_op_hash: op_info.user_op_hash,
                    success: true,
                    result,
                },
            ),
            PostOpMode::OpSucceeded,
        ),
        Err(reason) => (
            Event::RevertReason(
                UserOperationRevertReason {
                    user_op_hash: op_info.user_op_hash,
                    sender: op_info.user_op.sender,
                    nonce: op_info.user_op.nonce,
                    revert_reason: reason,
                },
            ),
            PostOpMode::OpReverted,
        ),
    }
}

/// Reads what the sponsor answered to its post-operation hook for
/// operation `op_index`: a refusal rejects the operation.
pub fn settle_post_op(op_index: u64, answer: Result<(), Error>) -> (done: Result<(), Error>)
    ensures
        match answer {
            Ok(()) => done is Ok,
            Err(cause) => is_rejection(
                done,
                op_index,
                "AA50 postOp reverted: "@ + error_debug_text(cause@),
            ),
        },
{
    match answer {
        Ok(()) => Ok(()),
        Err(cause) => {
            let text = debug_text(&cause);
            Err(failed_op(op_index, "AA50 postOp reverted: ", text.as_str()))
        },
    }
}

/// Tells whether the sponsor of an operation is told how the operation
/// ended: it is if the operation has a sponsor and the sponsor gave a
/// context when it validated the operation.
pub fn asks_sponsor(user_op: &UserOperation, context: &Vec<u8>) -> (asks: bool)
    ensures
        asks == (!user_op@.paymaster_and_data.is_eq_zero() && context@.len() != 0),
{
    !user_op.paymaster_and_data.is_eq_zero() && context.len() != 0
}

/// Whether the gas that is left lets an operation be run: it must cover
/// the operation's call and verification limits and the fixed overhead. A
/// sum of these beyond 64 bits is a fault of its own.
pub open spec fn spec_check_gas_budget(op: UserOperationView, gas_left: u64) -> Result<(), Error> {
    let needed = op.call_gas_limit + op.verification_gas_limit + EXECUTION_OVERHEAD_GAS;
    if needed > u64::MAX {
        Err(Error::GasValuesOverflow)
    } else if gas_left < needed {
        Err(Error::OutOfGas)
    } else {
        Ok(())
    }
}

/// Tells whether the gas that is left lets an operation be run; see `spec_check_gas_budget`.
pub fn check_gas_budget(user_op: &UserOperation, gas_left: u64) -> (done: Result<(), Error>)
    ensures
        done == spec_check_gas_budget(user_op@, gas_left),
{
    let needed = match user_op.call_gas_limit.checked_add(user_op.verification_gas_limit) {
        Some(gas) => match gas.checked_add(EXECUTION_OVERHEAD_GAS) {
            Some(gas) => gas,
            None => {
                return Err(Error::GasValuesOverflow);
            },
        },
        None => {
            return Err(Error::GasValuesOverflow);
        },
    };
    if gas_left < needed {
        return Err(Error::OutOfGas);
    }
    Ok(())
}

/// What is made of the first run of an operation: a cost stands, running
/// out of gas stands as the failure it is, and after any other failure the
/// operation is settled once more, as one whose call reverted, which `None`
/// stands for.
pub open spec fn spec_first_run(answer: Result<u64, Error>) -> Option<Result<u64, Error>> {
    match answer {
        Ok(cost) => Some(Ok(cost)),
        Err(e) => if e == Error::OutOfGas {
            Some(Err(Error::OutOfGas))
        } else {
            None
        },
    }
}

/// Reads the answer of the first run of an operation; see `spec_first_run`.
pub fn first_run(answer: Result<u64, Error>) -> (first: Option<Result<u64, Error>>)
    ensures
        first == spec_first_run(answer),
{
    match answer {
        Ok(cost) => Some(Ok(cost)),
        Err(Error::OutOfGas) => Some(Err(Error::OutOfGas)),
        Err(_) => None,
    }
}

/// Whether the deposit of an operation's payer takes back what of the
/// prefund was not spent at `cost` without leaving the balance type.
pub open spec fn spec_refund_fits(ledgers: Ledgers, info: UserOpInfoView, cost: u64) -> bool {
    ledgers.deposits[spec_payer(info.user_op)].deposit + (info.prefund - cost) <= Balance::MAX
}

impl EntryPoint {
    /// Settles an operation that used `actual_gas`: what it cost, at the
    /// price it pays, is kept from its prefund, and the rest goes back to
    /// the deposit of its payer. A cost above the prefund rejects the
    /// operation. Whenever the call fails, the ledgers stand as they stood.
    pub fn settle_gas(
        &mut self,
        op_index: u64,
        mode: PostOpMode,
        op_info: &UserOpInfo,
        actual_gas: u64,
    ) -> (done: Result<UserOperationEvent, Error>)
        ensures
            final(self).account_id == old(self).account_id,
            final(self)@.nonces == old(self)@.nonces,
            ({
                let cost = actual_gas * op_info@.user_op.gas_price();
                let payer = spec_payer(op_info@.user_op);
                if cost > u64::MAX {
                    final(self)@ == old(self)@ && done == Err::<UserOperationEvent, Error>(
                        Error::GasValuesOverflow,
                    )
                } else if op_info@.prefund < cost {
                    final(self)@ == old(self)@ && is_rejection(
                        done,
                        op_index,
                        "AA51 prefund below "@ + decimal_digits(cost as nat),
                    )
                } else if old(self)@.deposits[payer].deposit + (op_info@.prefund - cost)
                    > Balance::MAX {
                    final(self)@ == old(self)@ && done == Err::<UserOperationEvent, Error>(
                        Error::DepositOverflow,
                    )
                } else {
                    &&& done == Ok::<UserOperationEvent, Error>(
                        spec_settlement_event(op_info@, mode, cost as u64, actual_gas),
                    )
                    &&& final(self)@.deposits == old(self)@.deposits.insert(
                        payer,
                        spec_credited(
                            old(self)@.deposits[payer],
                            (op_info@.prefund - cost) as Balance,
                        ),
                    )
                    &&& final(self)@ == spec_refund(
                        old(self)@,
                        op_info@.user_op,
                        op_info@.prefund,
                        cost as u64,
                    )
                }
            }),
    {
        let user_op = &op_info.user_op;
        let gas_price = self.get_user_op_gas_price(user_op);
        let refund_address = if user_op.paymaster_and_data.is_eq_zero() {
            user_op.sender
        } else {
            user_op.paymaster_and_data.paymaster()
        };
        let actual_gas_cost = match actual_gas.checked_mul(gas_price) {
            Some(cost) => cost,
            None => {
                return Err(Error::GasValuesOverflow);
            },
        };
        if op_info.prefund < actual_gas_cost {
            let mut detail = String::new();
            append_decimal(&mut detail, actual_gas_cost);
            assert(detail@ =~= decimal_digits(actual_gas_cost as nat));
            return Err(failed_op(op_index, "AA51 prefund below ", detail.as_str()));
        }
        let refund = op_info.prefund - actual_gas_cost;
        match self.stake_manager.increment_deposit(refund_address, refund as Balance) {
            Ok(()) => {},
            Err(e) => {
                return Err(e);
            },
        }
        Ok(
            UserOperationEvent {
                user_op_hash: op_info.user_op_hash,
                sender: user_op.sender,
                paymaster: user_op.paymaster_and_data.paymaster(),
                nonce: user_op.nonce,
                success: match mode {
                    PostOpMode::OpSucceeded => true,
                    _ => false,
                },
                actual_gas_cost,
                actual_gas_used: actual_gas,
            },
        )
    }

    /// Ends an operation after its call: tells the sponsor how the call
    /// ended, if `asks_sponsor` says so, and settles the gas. `actual_gas` is the
    /// gas used so far; what this call itself uses is added. What the sponsor
    /// answers and what the gas meter reads is the host's to say. On success
    /// the cost is at most the prefund, the payer has the rest back, and the
    /// settlement is told; whenever the call fails, the ledgers and the log
    /// stand as they stood.
    pub fn handle_post_op<H: Host>(
        &mut self,
        host: &mut H,
        events: &mut Vec<Event>,
        op_index: u64,
        mode: PostOpMode,
        op_info: &UserOpInfo,
        context: &Vec<u8>,
        actual_gas: u64,
    ) -> (done: Result<u64, Error>)
        ensures
            final(self).account_id == old(self).account_id,
            final(self)@.nonces == old(self)@.nonces,
            match done {
                Ok(cost) => {
                    &&& cost <= op_info@.prefund
                    &&& spec_refund_fits(old(self)@, op_info@, cost)
                    &&& final(self)@ == spec_refund(
                        old(self)@,
                        op_info@.user_op,
                        op_info@.prefund,
                        cost,
                    )
                    &&& final(self)@.deposits == old(self)@.deposits.insert(
                        spec_payer(op_info@.user_op),
                        spec_credited(
                            old(self)@.deposits[spec_payer(op_info@.user_op)],
                            (op_info@.prefund - cost) as Balance,
                        ),
                    )
                    &&& spec_told_settlement(
                        old(events)@,
                        final(events)@,
                        op_info@,
                        mode,
                        cost,
                        actual_gas,
                    )
                    &&& spec_log_told(
                        old(events)@,
                        final(events)@,
                        Some((spec_op_name(op_info@), cost)),
                    )
                },
                Err(e) => final(self)@ == old(self)@ && final(events)@ == old(events)@
                    && spec_is_settlement_error(e, op_index),
            },
    {
        let pre_gas = host.gas_left();
        let user_op = &op_info.user_op;
        if asks_sponsor(user_op, context) {
            let actual_gas_cost = post_op_cost(user_op, actual_gas);
            let paymaster = user_op.paymaster_and_data.paymaster();
            let answer = host.post_op(paymaster, mode, context, actual_gas_cost);
            match settle_post_op(op_index, answer) {
                Ok(()) => {},
                Err(e) => {
                    return Err(e);
                },
            }
        }
        let total_gas = match gas_spent(pre_gas, host.gas_left(), actual_gas) {
            Ok(gas) => gas,
            Err(e) => {
                return Err(e);
            },
        };
        match self.settle_gas(op_index, mode, op_info, total_gas) {
            Ok(event) => {
                let cost = event.actual_gas_cost;
                events.push(Event::Operation(event));
                proof {
                    let told = spec_settlement_event(op_info@, mode, cost, total_gas);
                    assert(total_gas >= actual_gas);
                    assert(total_gas * op_info@.user_op.gas_price() == cost);
                    assert(event == told);
                    assert(events@ == old(events)@.push(Event::Operation(told)));
                    lemma_count_push(old(events)@, Event::Operation(told));
                    assert(spec_told_settlement(
                        old(events)@,
                        events@,
                        op_info@,
                        mode,
                        cost,
                        actual_gas,
                    ));
                }
                Ok(cost)
            },
            Err(e) => Err(e),
        }
    }

    /// Runs an accepted operation: makes its call, if it has call data, and
    /// settles it. The gas that is left must cover the operation's call and
    /// verification limits and a fixed overhead, else the call fails with
    /// `OutOfGas`, as `check_gas_budget` says of the gas that the host
    /// reads. What the callee answers is the host's to say; a call that
    /// fails is told and settled all the same. On success the payer has the
    /// unspent prefund back and the settlement is told; whenever the call
    /// fails, the ledgers stand as they stood. A rejection names operation
    /// 0, whatever the operation's place in its batch: `execute_user_op`
    /// settles once more under the operation's own index.
    pub fn inner_handle_op<H: Host>(
        &mut self,
        host: &mut H,
        events: &mut Vec<Event>,
        call_data: &Vec<u8>,
        op_info: &UserOpInfo,
        context: &Vec<u8>,
    ) -> (done: Result<u64, Error>)
        ensures
            final(self).account_id == old(self).account_id,
            final(self)@.nonces == old(self)@.nonces,
            op_info@.user_op.call_gas_limit + op_info@.user_op.verification_gas_limit
                + EXECUTION_OVERHEAD_GAS > u64::MAX ==> done == Err::<u64, Error>(
                Error::GasValuesOverflow,
            ),
            match done {
                Ok(cost) => {
                    &&& cost <= op_info@.prefund
                    &&& spec_refund_fits(old(self)@, op_info@, cost)
                    &&& final(self)@ == spec_refund(
                        old(self)@,
                        op_info@.user_op,
                        op_info@.prefund,
                        cost,
                    )
                    &&& spec_log_grew(old(events)@, final(events)@, 1)
                    &&& spec_log_told(
                        old(events)@,
                        final(events)@,
                        Some((spec_op_name(op_info@), cost)),
                    )
                    &&& final(events)@.last() matches Event::Operation(event)
                    &&& event.actual_gas_cost == cost
                    &&& event.user_op_hash == op_info@.user_op_hash
                },
                Err(e) => final(self)@ == old(self)@ && spec_log_grew(
                    old(events)@,
                    final(events)@,
                    0,
                ) && spec_log_told(old(events)@, final(events)@, None) && (e == Error::OutOfGas
                    || spec_is_settlement_error(e, 0)) && (e == Error::OutOfGas ==> final(events)@
                    == old(events)@),
            },
            op_info@.user_op.call_gas_limit + op_info@.user_op.verification_gas_limit
                + EXECUTION_OVERHEAD_GAS > u64::MAX ==> final(events)@ == old(events)@,
    {
        let pre_gas = host.gas_left();
        let user_op = &op_info.user_op;
        match check_gas_budget(user_op, host.gas_left()) {
            Ok(()) => {},
            Err(e) => {
                assert(old(events)@.subrange(0, old(events)@.len() as int) =~= old(events)@);
                return Err(e);
            },
        }
        let mut mode = PostOpMode::OpSucceeded;
        if call_data.len() != 0 {
            let answer = host.invoke(call_of(user_op));
            let (told, settle_as) = call_outcome(op_info, answer);
            proof {
                lemma_count_push(events@, told);
            }
            events.push(told);
            mode = settle_as;
        }
        assert(spec_log_grew(old(events)@, events@, 0)) by {
            assert(events@.subrange(0, old(events)@.len() as int) =~= old(events)@);
        }
        let actual_gas = match gas_spent(pre_gas, host.gas_left(), op_info.pre_op_gas) {
            Ok(gas) => gas,
            Err(e) => {
                return Err(e);
            },
        };
        let ghost log = events@;
        let done = self.handle_post_op(host, events, 0, mode, op_info, context, actual_gas);
        proof {
            if done is Ok {
                lemma_count_push(log, events@.last());
                assert(events@.subrange(0, old(events)@.len() as int) =~= old(events)@);
            }
        }
        done
    }

    /// Executes operation `op_index`, which was accepted with `op_info`, and
    /// answers with what it cost. If running it fails for any reason but
    /// `OutOfGas`, the operation is settled as one whose call reverted; what
    /// is made of the first run is `first_run`'s to say. On
    /// success the payer has the unspent prefund back and the settlement is
    /// told once; whenever the call fails, the ledgers stand as they stood.
    pub fn execute_user_op<H: Host>(
        &mut self,
        host: &mut H,
        events: &mut Vec<Event>,
        op_index: u64,
        user_op: &UserOperation,
        op_info: &UserOpInfo,
    ) -> (done: Result<u64, Error>)
        ensures
            final(self).account_id == old(self).account_id,
            final(self)@.nonces == old(self)@.nonces,
            match done {
                Ok(cost) => {
                    &&& cost <= op_info@.prefund
                    &&& spec_refund_fits(old(self)@, op_info@, cost)
                    &&& final(self)@ == spec_refund(
                        old(self)@,
                        op_info@.user_op,
                        op_info@.prefund,
                        cost,
                    )
                    &&& spec_log_grew(old(events)@, final(events)@, 1)
                    &&& spec_log_told(
                        old(events)@,
                        final(events)@,
                        Some((spec_op_name(op_info@), cost)),
                    )
                    &&& final(events)@.last() matches Event::Operation(event)
                    &&& event.actual_gas_cost == cost
                    &&& event.user_op_hash == op_info@.user_op_hash
                },
                Err(e) => final(self)@ == old(self)@ && spec_log_grew(
                    old(events)@,
                    final(events)@,
                    0,
                ) && spec_log_told(old(events)@, final(events)@, None) && (e == Error::OutOfGas
                    || spec_is_settlement_error(e, op_index)) && (e == Error::OutOfGas
                    ==> final(events)@ == old(events)@),
            },
    {
        let pre_gas = host.gas_left();
        let context = copy_bytes(op_info.context.as_slice());
        let answer = self.inner_handle_op(host, events, &user_op.call_data, op_info, &context);
        match first_run(answer) {
            Some(first) => first,
            None => {
                let ghost log = events@;
                let actual_gas = match gas_spent(pre_gas, host.gas_left(), op_info.pre_op_gas) {
                    Ok(gas) => gas,
                    Err(e) => {
                        return Err(e);
                    },
                };
                let done = self.handle_post_op(
                    host,
                    events,
                    op_index,
                    PostOpMode::OpReverted,
                    op_info,
                    &context,
                    actual_gas,
                );
                proof {
                    if done is Ok {
                        lemma_count_push(log, events@.last());
                        assert(events@.subrange(0, old(events)@.len() as int) =~= old(events)@);
                    }
                }
                done
            },
        }
    }
}

} // verus!
