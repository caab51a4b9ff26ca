use ink_aa::batch::{
    aggregator_to_ask, record_execution, record_group_execution, BatchReceipt, OpOutcome,
    UserOpsPerAggregator,
};
use ink_aa::entry_point::{gas_spent, pre_op_gas, EntryPoint, UserOpInfo};
use ink_aa::env::{AccountId, Balance, Timestamp};
use ink_aa::error::Error;
use ink_aa::events::{
    BeforeExecution, Event, UserOperationEvent, UserOperationReturnValue,
    UserOperationRevertReason,
};
use ink_aa::exec::{OpaqueTypes, Transaction};
use ink_aa::execution::{
    asks_sponsor, call_of, call_outcome, check_gas_budget, first_run, post_op_cost,
    settle_post_op,
};
use ink_aa::helpers::{keccak256, Aggregator, ValidationData};
use ink_aa::host::{Host, PostOpMode};
use ink_aa::stake_manager::{DepositInfo, IStakeManager};
use ink_aa::user_operation::{PaymasterAndData, UserOperation};

const ENTRY: AccountId = [0xEEu8; 32];
const SENDER: AccountId = [1u8; 32];
const OTHER: AccountId = [2u8; 32];
const SPONSOR: AccountId = [3u8; 32];
const TARGET: AccountId = [4u8; 32];
const BENEFICIARY: AccountId = [5u8; 32];
const AGGREGATOR: AccountId = [6u8; 32];
const ZERO: AccountId = [0u8; 32];

fn always() -> ValidationData {
    ValidationData { aggregator: Aggregator::VerifiedBySelf, valid_after: 0, valid_until: 1_000_000 }
}

/// A chain that answers as it was told to.
struct Chain {
    gas: u64,
    gas_step: u64,
    gas_script: Vec<u64>,
    now: Timestamp,
    refuse_transfer: bool,
    sent: Vec<(AccountId, Balance)>,
    account_answer: Result<ValidationData, Error>,
    refusing_senders: Vec<AccountId>,
    sponsor_answer: Result<(Vec<u8>, ValidationData), Error>,
    post_op_answer: Result<(), Error>,
    signature_answer: Result<(), Error>,
    call_answer: Result<Vec<u8>, Vec<u8>>,
    missing_funds: Vec<Balance>,
    max_costs: Vec<Balance>,
    hashes: Vec<[u8; 32]>,
    post_ops: Vec<(AccountId, PostOpMode, Vec<u8>, Balance)>,
    calls: Vec<Transaction>,
    signature_checks: Vec<(AccountId, usize, Vec<u8>)>,
}

impl Chain {
    fn new() -> Self {
        Chain {
            gas: 1_000_000,
            gas_step: 0,
            gas_script: Vec::new(),
            now: 500,
            refuse_transfer: false,
            sent: Vec::new(),
            account_answer: Ok(always()),
            refusing_senders: Vec::new(),
            sponsor_answer: Ok((Vec::new(), always())),
            post_op_answer: Ok(()),
            signature_answer: Ok(()),
            call_answer: Ok(vec![0xAB]),
            missing_funds: Vec::new(),
            max_costs: Vec::new(),
            hashes: Vec::new(),
            post_ops: Vec::new(),
            calls: Vec::new(),
            signature_checks: Vec::new(),
        }
    }

    fn stepping(step: u64) -> Self {
        let mut chain = Chain::new();
        chain.gas_step = step;
        chain
    }
}

impl Host for Chain {
    fn gas_left(&mut self) -> u64 {
        if !self.gas_script.is_empty() {
            return self.gas_script.remove(0);
        }
        let gas = self.gas;
        self.gas = self.gas.saturating_sub(self.gas_step);
        gas
    }

    fn block_timestamp(&mut self) -> Timestamp {
        self.now
    }

    fn transfer(&mut self, destination: AccountId, value: Balance) -> Result<(), Error> {
        if self.refuse_transfer {
            return Err(Error::InsufficientBalance);
        }
        self.sent.push((destination, value));
        Ok(())
    }

    fn validate_user_op(
        &mut self,
        user_op: &UserOperation,
        user_op_hash: [u8; 32],
        missing_account_funds: Balance,
    ) -> Result<ValidationData, Error> {
        self.missing_funds.push(missing_account_funds);
        self.hashes.push(user_op_hash);
        if self.refusing_senders.contains(&user_op.sender) {
            return Err(Error::NotFromEntryPoint);
        }
        self.account_answer.clone()
    }

    fn validate_paymaster_user_op(
        &mut self,
        _user_op: &UserOperation,
        _user_op_hash: [u8; 32],
        max_cost: Balance,
    ) -> Result<(Vec<u8>, ValidationData), Error> {
        self.max_costs.push(max_cost);
        self.sponsor_answer.clone()
    }

    fn post_op(
        &mut self,
        paymaster: AccountId,
        mode: PostOpMode,
        context: &Vec<u8>,
        actual_gas_cost: Balance,
    ) -> Result<(), Error> {
        self.post_ops.push((paymaster, mode, context.clone(), actual_gas_cost));
        self.post_op_answer.clone()
    }

    fn validate_signatures(
        &mut self,
        aggregator: AccountId,
        user_ops: &Vec<UserOperation>,
        signature: &Vec<u8>,
    ) -> Result<(), Error> {
        self.signature_checks.push((aggregator, user_ops.len(), signature.clone()));
        self.signature_answer.clone()
    }

    fn invoke(&mut self, transaction: Transaction) -> Result<OpaqueTypes, Vec<u8>> {
        self.calls.push(transaction);
        match &self.call_answer {
            Ok(bytes) => Ok(OpaqueTypes(bytes.clone())),
            Err(reason) => Err(reason.clone()),
        }
    }
}

fn nonce_of(key: [u8; 24], seq: u64) -> [u8; 32] {
    let mut nonce = [0u8; 32];
    nonce[..24].copy_from_slice(&key);
    nonce[24..].copy_from_slice(&seq.to_be_bytes());
    nonce
}

/// The operation of the worked example: price 2, limits 100 and 50, 10 gas before verification.
fn unsponsored(sender: AccountId, seq: u64) -> UserOperation {
    UserOperation {
        sender,
        nonce: nonce_of([0u8; 24], seq),
        init_code: vec![],
        callee: TARGET,
        selector: [99, 58, 165, 81],
        call_data: vec![],
        call_gas_limit: 50,
        verification_gas_limit: 100,
        pre_verification_gas: 10,
        max_fee_per_gas: 2,
        max_priority_fee_per_gas: 2,
        paymaster_and_data: PaymasterAndData::OnlyPaymaster(ZERO),
        signature: vec![],
    }
}

fn sponsored(sender: AccountId, seq: u64) -> UserOperation {
    let mut op = unsponsored(sender, seq);
    op.paymaster_and_data = PaymasterAndData::OnlyPaymaster(SPONSOR);
    op
}

fn funded(account: AccountId, amount: Balance) -> EntryPoint {
    let mut entry_point = EntryPoint::new(ENTRY);
    entry_point.stake_manager.deposit_to(account, amount).unwrap();
    entry_point
}

fn rows(entry_point: &EntryPoint) -> Vec<DepositInfo> {
    [SENDER, OTHER, SPONSOR, TARGET, BENEFICIARY]
        .iter()
        .map(|account| entry_point.get_deposit_info(*account))
        .collect()
}

fn nonces(entry_point: &EntryPoint) -> Vec<[u8; 32]> {
    [SENDER, OTHER, SPONSOR]
        .iter()
        .map(|account| entry_point.get_nonce(*account, [0u8; 24]))
        .collect()
}

fn failed(op_index: u64, reason: &str) -> Error {
    Error::FailedOp { op_index, reason: reason.to_owned() }
}

#[test]
fn required_prefund_counts_verification_gas_three_times_without_sponsor() {
    let entry_point = EntryPoint::new(ENTRY);
    assert_eq!(entry_point.get_required_prefund(&unsponsored(SENDER, 0)), Ok(720));
    assert_eq!(entry_point.get_required_prefund(&sponsored(SENDER, 0)), Ok(320));
}

#[test]
fn required_prefund_overflow_is_reported() {
    let entry_point = EntryPoint::new(ENTRY);
    let mut op = unsponsored(SENDER, 0);
    op.verification_gas_limit = u64::MAX / 3 + 1;
    assert_eq!(entry_point.get_required_prefund(&op), Err(Error::GasValuesOverflow));
    let mut op = sponsored(SENDER, 0);
    op.verification_gas_limit = u64::MAX;
    op.call_gas_limit = 1;
    assert_eq!(entry_point.get_required_prefund(&op), Err(Error::GasValuesOverflow));
    let mut op = sponsored(SENDER, 0);
    op.verification_gas_limit = u64::MAX - 50;
    op.pre_verification_gas = 1;
    assert_eq!(entry_point.get_required_prefund(&op), Err(Error::GasValuesOverflow));
    let mut op = sponsored(SENDER, 0);
    op.max_fee_per_gas = u64::MAX / 160 + 1;
    assert_eq!(entry_point.get_required_prefund(&op), Err(Error::GasValuesOverflow));
    let mut op = sponsored(SENDER, 0);
    op.max_fee_per_gas = u64::MAX / 160;
    assert_eq!(entry_point.get_required_prefund(&op), Ok(u64::MAX / 160 * 160));
    let mut op = sponsored(SENDER, 0);
    op.verification_gas_limit = u64::MAX;
    op.call_gas_limit = 1;
    op.max_fee_per_gas = 0;
    assert_eq!(entry_point.get_required_prefund(&op), Err(Error::GasValuesOverflow));
}

#[test]
fn user_op_hash_is_salted_with_the_coordinator() {
    let entry_point = EntryPoint::new(ENTRY);
    let op = sponsored(SENDER, 0);
    let mut bytes = op.hash().to_vec();
    bytes.push(32 << 2);
    bytes.extend_from_slice(&ENTRY);
    assert_eq!(entry_point.inner_get_user_op_hash(&op), keccak256(&bytes));
    assert_eq!(entry_point.get_user_op_hash(op.clone()), keccak256(&bytes));
    let elsewhere = EntryPoint::new([0xEFu8; 32]);
    assert_ne!(elsewhere.inner_get_user_op_hash(&op), entry_point.inner_get_user_op_hash(&op));
    let mut signed = op.clone();
    signed.signature = vec![1, 2, 3];
    assert_eq!(
        entry_point.inner_get_user_op_hash(&signed),
        entry_point.inner_get_user_op_hash(&op)
    );
}

#[test]
fn worked_example_debit_720_credit_560_net_840() {
    let mut entry_point = funded(SENDER, 1000);
    let mut chain = Chain::new();
    let op = unsponsored(SENDER, 0);
    let prefund = entry_point.get_required_prefund(&op).unwrap();
    assert_eq!(prefund, 720);
    let mut info = UserOpInfo::default();
    info.user_op = op.clone();
    info.user_op_hash = entry_point.inner_get_user_op_hash(&op);
    let validated =
        entry_point.validate_account_prepayment(&mut chain, 0, &op, &info, prefund as Balance);
    assert_eq!(validated, Ok((0, always())));
    assert_eq!(chain.missing_funds, vec![0]);
    assert_eq!(entry_point.balance_of(SENDER), 280);
    info.prefund = prefund;
    let mut events = Vec::new();
    let cost = entry_point.handle_post_op(
        &mut chain,
        &mut events,
        0,
        PostOpMode::OpSucceeded,
        &info,
        &Vec::new(),
        80,
    );
    assert_eq!(cost, Ok(160));
    assert_eq!(entry_point.balance_of(SENDER), 840);
    assert_eq!(
        events,
        vec![Event::Operation(UserOperationEvent {
            user_op_hash: info.user_op_hash,
            sender: SENDER,
            paymaster: ZERO,
            nonce: op.nonce,
            success: true,
            actual_gas_cost: 160,
            actual_gas_used: 80,
        })]
    );
    assert!(chain.post_ops.is_empty());
}

#[test]
fn missing_account_funds_is_what_the_deposit_is_short_of() {
    let entry_point = funded(SENDER, 100);
    assert_eq!(entry_point.missing_account_funds(&unsponsored(SENDER, 0), 720), 620);
    assert_eq!(entry_point.missing_account_funds(&unsponsored(SENDER, 0), 100), 0);
    assert_eq!(entry_point.missing_account_funds(&unsponsored(SENDER, 0), 99), 0);
    assert_eq!(entry_point.missing_account_funds(&sponsored(SENDER, 0), 720), 0);
    assert_eq!(entry_point.missing_account_funds(&unsponsored(OTHER, 0), 720), 720);
}

#[test]
fn account_refusal_rejects_with_aa23() {
    let mut entry_point = funded(SENDER, 1000);
    let mut chain = Chain::new();
    chain.account_answer = Err(Error::NotOwner);
    let op = unsponsored(SENDER, 0);
    let mut info = UserOpInfo::default();
    info.user_op = op.clone();
    let before = rows(&entry_point);
    assert_eq!(
        entry_point.validate_account_prepayment(&mut chain, 7, &op, &info, 720),
        Err(failed(7, "AA23 reverted: NotOwner"))
    );
    assert_eq!(rows(&entry_point), before);
    assert_eq!(
        entry_point.settle_account_validation(
            8,
            &op,
            720,
            Err(Error::FailedOp { op_index: 1, reason: "x".to_owned() })
        ),
        Err(failed(8, "AA23 reverted: FailedOp { op_index: 1, reason: \"x\" }"))
    );
}

#[test]
fn short_deposit_rejects_with_aa21() {
    let mut entry_point = funded(SENDER, 719);
    let mut chain = Chain::new();
    let op = unsponsored(SENDER, 0);
    let mut info = UserOpInfo::default();
    info.user_op = op.clone();
    assert_eq!(
        entry_point.validate_account_prepayment(&mut chain, 2, &op, &info, 720),
        Err(failed(2, "AA21 didn't pay prefund"))
    );
    assert_eq!(chain.missing_funds, vec![1]);
    assert_eq!(entry_point.balance_of(SENDER), 719);
}

#[test]
fn account_phase_of_a_sponsored_operation_leaves_the_sender_alone() {
    let mut entry_point = funded(SENDER, 1000);
    let mut chain = Chain::stepping(7);
    let op = sponsored(SENDER, 0);
    let mut info = UserOpInfo::default();
    info.user_op = op.clone();
    assert_eq!(
        entry_point.validate_account_prepayment(&mut chain, 0, &op, &info, 320),
        Ok((7, always()))
    );
    assert_eq!(entry_point.balance_of(SENDER), 1000);
    assert_eq!(chain.missing_funds, vec![0]);
}

#[test]
fn account_phase_undoes_the_debit_when_the_gas_meter_runs_backwards() {
    let mut entry_point = funded(SENDER, 1000);
    let mut chain = Chain::new();
    chain.gas_script = vec![10, 11];
    let op = unsponsored(SENDER, 0);
    let mut info = UserOpInfo::default();
    info.user_op = op.clone();
    assert_eq!(
        entry_point.validate_account_prepayment(&mut chain, 0, &op, &info, 720),
        Err(Error::GasValuesOverflow)
    );
    assert_eq!(entry_point.balance_of(SENDER), 1000);
}

#[test]
fn unsponsored_operation_is_turned_away_at_the_sponsor_check() {
    let mut entry_point = funded(SENDER, 1000);
    let mut chain = Chain::new();
    let op = unsponsored(SENDER, 0);
    let mut info = UserOpInfo::default();
    let before = (rows(&entry_point), nonces(&entry_point));
    assert_eq!(
        entry_point.validate_prepayment(&mut chain, 0, &op, &mut info),
        Err(Error::InvalidPaymasterAddress)
    );
    assert_eq!((rows(&entry_point), nonces(&entry_point)), before);
    assert_eq!(chain.missing_funds, vec![0]);
}

#[test]
fn sponsored_operation_is_accepted_and_charged() {
    let mut entry_point = funded(SPONSOR, 1000);
    let mut chain = Chain::stepping(10);
    chain.sponsor_answer = Ok((vec![1, 2], always()));
    let op = sponsored(SENDER, 0);
    let mut info = UserOpInfo::default();
    assert_eq!(
        entry_point.validate_prepayment(&mut chain, 0, &op, &mut info),
        Ok((always(), always()))
    );
    assert_eq!(entry_point.balance_of(SPONSOR), 680);
    assert_eq!(entry_point.balance_of(SENDER), 0);
    assert_eq!(entry_point.get_nonce(SENDER, [0u8; 24]), nonce_of([0u8; 24], 1));
    assert_eq!(info.user_op, op);
    assert_eq!(info.user_op_hash, entry_point.inner_get_user_op_hash(&op));
    assert_eq!(info.prefund, 320);
    assert_eq!(info.context, vec![1, 2]);
    assert_eq!(info.pre_op_gas, 50);
    assert_eq!(chain.max_costs, vec![320]);
    assert_eq!(chain.hashes, vec![info.user_op_hash]);
}

#[test]
fn validation_errors_leave_the_ledgers_as_they_stood() {
    let op = sponsored(SENDER, 0);

    let mut entry_point = funded(SPONSOR, 1000);
    let before = (rows(&entry_point), nonces(&entry_point));
    let mut overflowing = sponsored(SENDER, 0);
    overflowing.max_fee_per_gas = u64::MAX;
    assert_eq!(
        entry_point.validate_prepayment(&mut Chain::new(), 0, &overflowing, &mut UserOpInfo::default()),
        Err(Error::GasValuesOverflow)
    );
    assert_eq!((rows(&entry_point), nonces(&entry_point)), before);

    let replayed = sponsored(SENDER, 1);
    assert_eq!(
        entry_point.validate_prepayment(&mut Chain::new(), 0, &replayed, &mut UserOpInfo::default()),
        Err(Error::InvalidAccountNonce)
    );
    assert_eq!((rows(&entry_point), nonces(&entry_point)), before);

    let mut chain = Chain::new();
    chain.account_answer = Err(Error::NotOwner);
    assert_eq!(
        entry_point.validate_prepayment(&mut chain, 3, &op, &mut UserOpInfo::default()),
        Err(failed(3, "AA23 reverted: NotOwner"))
    );
    assert_eq!((rows(&entry_point), nonces(&entry_point)), before);

    let mut chain = Chain::new();
    chain.sponsor_answer = Err(Error::PaymasterNotFound);
    assert_eq!(
        entry_point.validate_prepayment(&mut chain, 4, &op, &mut UserOpInfo::default()),
        Err(failed(4, "AA33 reverted: PaymasterNotFound"))
    );
    assert_eq!((rows(&entry_point), nonces(&entry_point)), before);

    // The account phase uses 100 gas, all the verification gas there is.
    let mut chain = Chain::new();
    chain.gas_script = vec![1000, 1000, 900];
    assert_eq!(
        entry_point.validate_prepayment(&mut chain, 0, &op, &mut UserOpInfo::default()),
        Err(Error::TooLittleVerificationGas)
    );
    assert_eq!((rows(&entry_point), nonces(&entry_point)), before);

    // Validation as a whole uses 101 gas, one more than the verification gas.
    let mut chain = Chain::new();
    chain.gas_script = vec![1000, 1000, 1000, 899, 899];
    assert_eq!(
        entry_point.validate_prepayment(&mut chain, 0, &op, &mut UserOpInfo::default()),
        Err(Error::OverVerificationGasLimit)
    );
    assert_eq!((rows(&entry_point), nonces(&entry_point)), before);

    // The gas meter reads more at the end than at the start.
    let mut chain = Chain::new();
    chain.gas_script = vec![1000, 1000, 1000, 1001, 1001];
    assert_eq!(
        entry_point.validate_prepayment(&mut chain, 0, &op, &mut UserOpInfo::default()),
        Err(Error::GasValuesOverflow)
    );
    assert_eq!((rows(&entry_point), nonces(&entry_point)), before);

    let mut poor = funded(SPONSOR, 319);
    let before = (rows(&poor), nonces(&poor));
    assert_eq!(
        poor.validate_prepayment(&mut Chain::new(), 0, &op, &mut UserOpInfo::default()),
        Err(Error::PaymasterDepositTooLow)
    );
    assert_eq!((rows(&poor), nonces(&poor)), before);
}

#[test]
fn charge_paymaster_checks_gas_then_deposit() {
    let mut entry_point = funded(SPONSOR, 320);
    let op = sponsored(SENDER, 0);
    assert_eq!(entry_point.charge_paymaster(&op, 320, 100), Err(Error::TooLittleVerificationGas));
    assert_eq!(entry_point.charge_paymaster(&op, 321, 99), Err(Error::PaymasterDepositTooLow));
    assert_eq!(entry_point.balance_of(SPONSOR), 320);
    assert_eq!(entry_point.charge_paymaster(&op, 320, 99), Ok(()));
    assert_eq!(entry_point.balance_of(SPONSOR), 0);
    assert_eq!(
        entry_point.settle_paymaster_validation(5, Err(Error::NotOwner)),
        Err(failed(5, "AA33 reverted: NotOwner"))
    );
    assert_eq!(
        entry_point.settle_paymaster_validation(5, Ok((vec![1], always()))),
        Ok((vec![1], always()))
    );
}

#[test]
fn validation_data_is_checked_in_order() {
    let entry_point = EntryPoint::new(ENTRY);
    let none = Aggregator::VerifiedBySelf;
    let by = Aggregator::VerifiedBy(AGGREGATOR);
    let window = |aggregator, valid_after, valid_until| ValidationData {
        aggregator,
        valid_after,
        valid_until,
    };
    let check = |account, sponsor, expected, now| {
        entry_point.validate_account_and_paymaster_validation_data(1, account, sponsor, expected, now)
    };
    assert_eq!(check(window(none, 10, 20), window(none, 10, 20), none, 10), Ok(()));
    assert_eq!(check(window(none, 10, 20), window(none, 10, 20), none, 20), Ok(()));
    assert_eq!(check(window(by, 10, 20), window(none, 10, 20), by, 15), Ok(()));
    assert_eq!(
        check(window(by, 10, 20), window(none, 10, 20), none, 15),
        Err(failed(1, "AA24 signature error"))
    );
    assert_eq!(
        check(window(none, 10, 20), window(none, 10, 20), by, 15),
        Err(failed(1, "AA24 signature error"))
    );
    assert_eq!(
        check(window(Aggregator::FailedVerification, 10, 20), window(none, 10, 20), none, 15),
        Err(failed(1, "AA24 signature error"))
    );
    assert_eq!(
        check(window(none, 10, 20), window(none, 10, 20), none, 9),
        Err(failed(1, "AA22 expired or not due"))
    );
    assert_eq!(
        check(window(none, 10, 20), window(none, 10, 20), none, 21),
        Err(failed(1, "AA22 expired or not due"))
    );
    assert_eq!(
        check(window(none, 10, 20), window(by, 10, 20), none, 15),
        Err(failed(1, "AA34 signature error"))
    );
    assert_eq!(
        check(window(none, 10, 20), window(none, 16, 20), none, 15),
        Err(failed(1, "AA32 paymaster expired or not due"))
    );
    assert_eq!(
        check(window(none, 10, 20), window(none, 10, 14), none, 15),
        Err(failed(1, "AA32 paymaster expired or not due"))
    );
}

#[test]
fn all_zero_validation_data_reads_as_failed_verification() {
    let entry_point = EntryPoint::new(ENTRY);
    let zero = ValidationData::default();
    assert_eq!(
        entry_point.get_validation_data(zero, 0),
        (Aggregator::FailedVerification, false)
    );
    assert_eq!(
        entry_point.get_validation_data(zero, 77),
        (Aggregator::FailedVerification, false)
    );
    // An account that answers with all zeros is taken to have failed,
    // though at instant 0 its answer would read as valid.
    assert_eq!(
        entry_point.validate_account_and_paymaster_validation_data(
            0,
            zero,
            always(),
            Aggregator::VerifiedBySelf,
            0
        ),
        Err(failed(0, "AA24 signature error"))
    );
    // A sponsor that answers with all zeros is taken to claim an aggregator.
    assert_eq!(
        entry_point.validate_account_and_paymaster_validation_data(
            0,
            always(),
            zero,
            Aggregator::VerifiedBySelf,
            0
        ),
        Err(failed(0, "AA34 signature error"))
    );
    let nearly = ValidationData { aggregator: Aggregator::VerifiedBySelf, valid_after: 0, valid_until: 1 };
    assert_eq!(entry_point.get_validation_data(nearly, 1), (Aggregator::VerifiedBySelf, false));
    assert_eq!(entry_point.get_validation_data(nearly, 2), (Aggregator::VerifiedBySelf, true));
    let by = ValidationData { aggregator: Aggregator::VerifiedBy(ZERO), valid_after: 0, valid_until: 0 };
    assert_eq!(entry_point.get_validation_data(by, 0), (Aggregator::VerifiedBy(ZERO), false));
    assert_eq!(entry_point.get_validation_data(by, 1), (Aggregator::VerifiedBy(ZERO), true));
}

fn accepted(entry_point: &EntryPoint, op: &UserOperation, prefund: u64, pre_op_gas: u64) -> UserOpInfo {
    let mut info = UserOpInfo::default();
    info.user_op = op.clone();
    info.user_op_hash = entry_point.inner_get_user_op_hash(op);
    info.prefund = prefund;
    info.pre_op_gas = pre_op_gas;
    info
}

#[test]
fn settle_gas_keeps_the_cost_and_returns_the_rest() {
    let mut entry_point = funded(SPONSOR, 680);
    let op = sponsored(SENDER, 0);
    let info = accepted(&entry_point, &op, 320, 0);
    let event = entry_point.settle_gas(0, PostOpMode::OpReverted, &info, 80).unwrap();
    assert_eq!(event.actual_gas_cost, 160);
    assert_eq!(event.actual_gas_used, 80);
    assert!(!event.success);
    assert_eq!(event.paymaster, SPONSOR);
    assert_eq!(event.sender, SENDER);
    assert_eq!(entry_point.balance_of(SPONSOR), 840);
    assert_eq!(entry_point.balance_of(SENDER), 0);
}

#[test]
fn settle_gas_uses_the_lower_price_ceiling() {
    let mut entry_point = funded(SPONSOR, 0);
    let mut op = sponsored(SENDER, 0);
    op.max_fee_per_gas = 5;
    op.max_priority_fee_per_gas = 3;
    let info = accepted(&entry_point, &op, 1000, 0);
    let event = entry_point.settle_gas(0, PostOpMode::OpSucceeded, &info, 100).unwrap();
    assert_eq!(event.actual_gas_cost, 300);
    assert!(event.success);
    assert_eq!(entry_point.balance_of(SPONSOR), 700);
}

#[test]
fn settle_gas_faults_leave_the_ledger_as_it_stood() {
    let mut entry_point = funded(SPONSOR, 680);
    let op = sponsored(SENDER, 0);
    let info = accepted(&entry_point, &op, 320, 0);
    assert_eq!(
        entry_point.settle_gas(6, PostOpMode::OpSucceeded, &info, 161),
        Err(failed(6, "AA51 prefund below 322"))
    );
    assert_eq!(
        entry_point.settle_gas(6, PostOpMode::OpSucceeded, &info, u64::MAX),
        Err(Error::GasValuesOverflow)
    );
    assert_eq!(entry_point.balance_of(SPONSOR), 680);
    assert_eq!(
        entry_point.settle_gas(6, PostOpMode::OpSucceeded, &info, 160).map(|e| e.actual_gas_cost),
        Ok(320)
    );
    assert_eq!(entry_point.balance_of(SPONSOR), 680);

    let mut rich = funded(SPONSOR, Balance::MAX);
    assert_eq!(
        rich.settle_gas(6, PostOpMode::OpSucceeded, &info, 0),
        Err(Error::DepositOverflow)
    );
    assert_eq!(rich.balance_of(SPONSOR), Balance::MAX);
}

#[test]
fn post_op_tells_the_sponsor_when_it_gave_a_context() {
    let mut entry_point = funded(SPONSOR, 680);
    let mut chain = Chain::stepping(5);
    let op = sponsored(SENDER, 0);
    let info = accepted(&entry_point, &op, 320, 0);
    let mut events = Vec::new();
    let context = vec![7u8];
    assert_eq!(
        entry_point.handle_post_op(&mut chain, &mut events, 0, PostOpMode::OpSucceeded, &info, &context, 75),
        Ok(160)
    );
    assert_eq!(chain.post_ops, vec![(SPONSOR, PostOpMode::OpSucceeded, vec![7u8], 150)]);
    assert_eq!(entry_point.balance_of(SPONSOR), 840);
    assert_eq!(events.len(), 1);
}

#[test]
fn post_op_refusal_rejects_with_aa50() {
    let mut entry_point = funded(SPONSOR, 680);
    let mut chain = Chain::new();
    chain.post_op_answer = Err(Error::NotFromEntryPoint);
    let op = sponsored(SENDER, 0);
    let info = accepted(&entry_point, &op, 320, 0);
    let mut events = Vec::new();
    assert_eq!(
        entry_point.handle_post_op(&mut chain, &mut events, 9, PostOpMode::OpSucceeded, &info, &vec![1], 80),
        Err(failed(9, "AA50 postOp reverted: NotFromEntryPoint"))
    );
    assert_eq!(entry_point.balance_of(SPONSOR), 680);
    assert!(events.is_empty());
    // Without a context the sponsor is not told, and cannot refuse.
    assert_eq!(
        entry_point.handle_post_op(&mut chain, &mut events, 9, PostOpMode::OpSucceeded, &info, &vec![], 80),
        Ok(160)
    );
    assert_eq!(chain.post_ops.len(), 1);
}

#[test]
fn post_op_gas_faults() {
    let mut entry_point = funded(SPONSOR, 680);
    let op = sponsored(SENDER, 0);
    let info = accepted(&entry_point, &op, 320, 0);
    let mut events = Vec::new();
    let mut chain = Chain::new();
    chain.gas_script = vec![10, 11];
    assert_eq!(
        entry_point.handle_post_op(&mut chain, &mut events, 0, PostOpMode::OpSucceeded, &info, &vec![], 80),
        Err(Error::GasValuesOverflow)
    );
    let mut chain = Chain::new();
    chain.gas_script = vec![11, 10];
    assert_eq!(
        entry_point.handle_post_op(&mut chain, &mut events, 0, PostOpMode::OpSucceeded, &info, &vec![], u64::MAX),
        Err(Error::GasValuesOverflow)
    );
    assert_eq!(entry_point.balance_of(SPONSOR), 680);
    assert!(events.is_empty());
}

#[test]
fn running_out_of_gas_is_told_apart() {
    let mut entry_point = funded(SPONSOR, 680);
    let op = sponsored(SENDER, 0);
    let info = accepted(&entry_point, &op, 320, 0);
    let mut events = Vec::new();
    let mut chain = Chain::new();
    chain.gas = 50 + 100 + 5000 - 1;
    assert_eq!(
        entry_point.inner_handle_op(&mut chain, &mut events, &op.call_data, &info, &vec![]),
        Err(Error::OutOfGas)
    );
    assert_eq!(
        entry_point.execute_user_op(&mut chain, &mut events, 0, &op, &info),
        Err(Error::OutOfGas)
    );
    chain.gas = 50 + 100 + 5000;
    assert_eq!(
        entry_point.inner_handle_op(&mut chain, &mut events, &op.call_data, &info, &vec![]),
        Ok(0)
    );
    let mut greedy = op.clone();
    greedy.call_gas_limit = u64::MAX;
    let info = accepted(&entry_point, &greedy, 320, 0);
    assert_eq!(
        entry_point.inner_handle_op(&mut chain, &mut events, &greedy.call_data, &info, &vec![]),
        Err(Error::GasValuesOverflow)
    );
}

#[test]
fn the_call_is_made_only_with_call_data_and_told_either_way() {
    let mut entry_point = funded(SPONSOR, 1000);
    let mut op = sponsored(SENDER, 0);
    let info = accepted(&entry_point, &op, 320, 0);
    let mut events = Vec::new();
    let mut chain = Chain::new();
    assert_eq!(entry_point.execute_user_op(&mut chain, &mut events, 0, &op, &info), Ok(0));
    assert!(chain.calls.is_empty());
    assert_eq!(events.len(), 1);

    op.call_data = vec![1, 2, 3];
    let info = accepted(&entry_point, &op, 320, 0);
    let mut events = Vec::new();
    assert_eq!(entry_point.execute_user_op(&mut chain, &mut events, 0, &op, &info), Ok(0));
    assert_eq!(chain.calls, vec![Transaction::new(TARGET, [99, 58, 165, 81], vec![1, 2, 3], 50)]);
    assert_eq!(events.len(), 2);
    match &events[0] {
        Event::ReturnValue(value) => {
            assert!(value.success);
            assert_eq!(value.result, OpaqueTypes(vec![0xAB]));
            assert_eq!(value.user_op_hash, info.user_op_hash);
        }
        other => panic!("unexpected {other:?}"),
    }
    match &events[1] {
        Event::Operation(event) => assert!(event.success),
        other => panic!("unexpected {other:?}"),
    }

    chain.call_answer = Err(b"boom".to_vec());
    let mut events = Vec::new();
    assert_eq!(entry_point.execute_user_op(&mut chain, &mut events, 0, &op, &info), Ok(0));
    match &events[0] {
        Event::RevertReason(reason) => {
            assert_eq!(reason.revert_reason, b"boom".to_vec());
            assert_eq!(reason.sender, SENDER);
            assert_eq!(reason.nonce, op.nonce);
        }
        other => panic!("unexpected {other:?}"),
    }
    match &events[1] {
        Event::Operation(event) => assert!(!event.success),
        other => panic!("unexpected {other:?}"),
    }
}

#[test]
fn an_operation_that_fails_to_settle_is_settled_once_more_as_reverted() {
    let mut entry_point = funded(SPONSOR, 680);
    let op = sponsored(SENDER, 0);
    let mut info = accepted(&entry_point, &op, 320, 0);
    info.context = vec![1];
    let mut events = Vec::new();
    let mut chain = Chain::new();
    chain.post_op_answer = Err(Error::NotOwner);
    assert_eq!(
        entry_point.execute_user_op(&mut chain, &mut events, 4, &op, &info),
        Err(failed(4, "AA50 postOp reverted: NotOwner"))
    );
    assert_eq!(
        chain.post_ops.iter().map(|told| told.1).collect::<Vec<_>>(),
        vec![PostOpMode::OpSucceeded, PostOpMode::OpReverted]
    );
    assert_eq!(entry_point.balance_of(SPONSOR), 680);
    assert!(events.is_empty());
}

#[test]
fn compensate_refuses_the_zero_account_before_it_sends() {
    let entry_point = EntryPoint::new(ENTRY);
    let mut chain = Chain::new();
    assert_eq!(entry_point.compensate(&mut chain, ZERO, 5), Err(Error::InvalidBeneficiary));
    assert!(chain.sent.is_empty());
    assert_eq!(entry_point.compensate(&mut chain, BENEFICIARY, 5), Ok(()));
    assert_eq!(chain.sent, vec![(BENEFICIARY, 5)]);
    chain.refuse_transfer = true;
    assert_eq!(
        entry_point.compensate(&mut chain, BENEFICIARY, 5),
        Err(Error::FailedSendToBeneficiary)
    );
}

fn settlements(receipt: &BatchReceipt) -> Vec<UserOperationEvent> {
    receipt
        .events
        .iter()
        .filter_map(|event| match event {
            Event::Operation(event) => Some(*event),
            _ => None,
        })
        .collect()
}

fn rejections(receipt: &BatchReceipt) -> usize {
    receipt
        .events
        .iter()
        .filter(|event| matches!(event, Event::ReturnValue(value) if !value.success))
        .count()
}

#[test]
fn one_sponsored_operation_through_the_whole_pipeline() {
    let mut entry_point = funded(SPONSOR, 1000);
    let mut chain = Chain::stepping(10);
    let op = sponsored(SENDER, 0);
    let receipt = entry_point.handle_ops(&mut chain, vec![op.clone()], BENEFICIARY).unwrap();
    // Gas: 4 steps and 10 before the call, 2 steps around the call, 1 step in settlement.
    assert_eq!(receipt.outcomes, vec![OpOutcome::Settled { actual_gas_cost: 160 }]);
    assert_eq!(receipt.collected, 160);
    assert_eq!(entry_point.balance_of(SPONSOR), 840);
    assert_eq!(chain.sent, vec![(BENEFICIARY, 160)]);
    assert_eq!(
        receipt.events,
        vec![
            Event::BeforeExecution(BeforeExecution {}),
            Event::Operation(UserOperationEvent {
                user_op_hash: entry_point.inner_get_user_op_hash(&op),
                sender: SENDER,
                paymaster: SPONSOR,
                nonce: op.nonce,
                success: true,
                actual_gas_cost: 160,
                actual_gas_used: 80,
            }),
        ]
    );
    assert_eq!(entry_point.get_nonce(SENDER, [0u8; 24]), nonce_of([0u8; 24], 1));
}

#[test]
fn a_rejected_operation_leaves_the_batch_as_if_it_had_not_been_there() {
    let ops = vec![sponsored(SENDER, 0), sponsored(OTHER, 0), sponsored(SENDER, 1)];

    let mut with = funded(SPONSOR, 1000);
    let mut chain = Chain::new();
    chain.refusing_senders = vec![OTHER];
    let receipt = with.handle_ops(&mut chain, ops.clone(), BENEFICIARY).unwrap();
    assert_eq!(receipt.outcomes.len(), 3);
    assert_eq!(receipt.outcomes[0], OpOutcome::Settled { actual_gas_cost: 20 });
    assert_eq!(
        receipt.outcomes[1],
        OpOutcome::Rejected(failed(1, "AA23 reverted: NotFromEntryPoint"))
    );
    assert_eq!(receipt.outcomes[2], OpOutcome::Settled { actual_gas_cost: 20 });
    assert_eq!(settlements(&receipt).len(), 2);
    assert_eq!(rejections(&receipt), 1);
    assert_eq!(receipt.collected, 40);
    match &receipt.events[0] {
        Event::ReturnValue(value) => {
            assert_eq!(value.user_op_hash, with.inner_get_user_op_hash(&ops[1]));
            assert_eq!(
                value.result,
                OpaqueTypes(
                    b"FailedOp { op_index: 1, reason: \"AA23 reverted: NotFromEntryPoint\" }".to_vec()
                )
            );
        }
        other => panic!("unexpected {other:?}"),
    }
    assert_eq!(receipt.events[1], Event::BeforeExecution(BeforeExecution {}));

    let mut without = funded(SPONSOR, 1000);
    let mut chain = Chain::new();
    let receipt_without = without
        .handle_ops(&mut chain, vec![ops[0].clone(), ops[2].clone()], BENEFICIARY)
        .unwrap();
    assert_eq!(rows(&with), rows(&without));
    assert_eq!(nonces(&with), nonces(&without));
    assert_eq!(settlements(&receipt), settlements(&receipt_without));
    assert_eq!(rejections(&receipt_without), 0);
    assert_eq!(receipt.collected, receipt_without.collected);
    assert_eq!(with.balance_of(SPONSOR), 960);
    assert_eq!(with.get_nonce(SENDER, [0u8; 24]), nonce_of([0u8; 24], 2));
    assert_eq!(with.get_nonce(OTHER, [0u8; 24]), nonce_of([0u8; 24], 0));
}

#[test]
fn an_operation_outside_its_window_is_rejected_and_its_charge_undone() {
    let mut entry_point = funded(SPONSOR, 1000);
    let mut chain = Chain::new();
    chain.now = 1_000_001;
    let before = (rows(&entry_point), nonces(&entry_point));
    let receipt = entry_point
        .handle_ops(&mut chain, vec![sponsored(SENDER, 0)], BENEFICIARY)
        .unwrap();
    assert_eq!(
        receipt.outcomes,
        vec![OpOutcome::Rejected(failed(0, "AA22 expired or not due"))]
    );
    assert_eq!((rows(&entry_point), nonces(&entry_point)), before);
    assert_eq!(receipt.collected, 0);
    assert_eq!(chain.sent, vec![(BENEFICIARY, 0)]);
}

#[test]
fn an_operation_that_cannot_be_settled_stays_charged() {
    let mut entry_point = funded(SPONSOR, 1000);
    let mut chain = Chain::new();
    chain.sponsor_answer = Ok((vec![1], always()));
    chain.post_op_answer = Err(Error::NotOwner);
    let receipt = entry_point
        .handle_ops(&mut chain, vec![sponsored(SENDER, 0)], BENEFICIARY)
        .unwrap();
    assert_eq!(
        receipt.outcomes,
        vec![OpOutcome::Unsettled(failed(0, "AA50 postOp reverted: NotOwner"))]
    );
    assert_eq!(entry_point.balance_of(SPONSOR), 680);
    assert_eq!(receipt.collected, 0);
    assert!(settlements(&receipt).is_empty());
    assert_eq!(rejections(&receipt), 1);
    assert_eq!(receipt.events.len(), 2);
    assert_eq!(receipt.events[0], Event::BeforeExecution(BeforeExecution {}));
    assert_eq!(
        receipt.events[1],
        Event::ReturnValue(UserOperationReturnValue {
            user_op_hash: entry_point.inner_get_user_op_hash(&sponsored(SENDER, 0)),
            success: false,
            result: OpaqueTypes(
                b"FailedOp { op_index: 0, reason: \"AA50 postOp reverted: NotOwner\" }".to_vec()
            ),
        })
    );
    assert_eq!(chain.sent, vec![(BENEFICIARY, 0)]);
}

#[test]
fn batch_level_faults_put_the_ledgers_back() {
    let ops = vec![sponsored(SENDER, 0), sponsored(OTHER, 0)];

    let mut entry_point = funded(SPONSOR, 1000);
    let before = (rows(&entry_point), nonces(&entry_point));
    assert_eq!(
        entry_point.handle_ops(&mut Chain::new(), ops.clone(), ZERO),
        Err(Error::InvalidBeneficiary)
    );
    assert_eq!((rows(&entry_point), nonces(&entry_point)), before);

    let mut chain = Chain::new();
    chain.refuse_transfer = true;
    assert_eq!(
        entry_point.handle_ops(&mut chain, ops.clone(), BENEFICIARY),
        Err(Error::FailedSendToBeneficiary)
    );
    assert_eq!((rows(&entry_point), nonces(&entry_point)), before);

    let mut chain = Chain::new();
    chain.gas = 5149;
    assert_eq!(
        entry_point.handle_ops(&mut chain, ops.clone(), BENEFICIARY),
        Err(Error::OutOfGas)
    );
    assert_eq!((rows(&entry_point), nonces(&entry_point)), before);
    assert!(chain.sent.is_empty());
}

#[test]
fn an_empty_batch_pays_nothing_out() {
    let mut entry_point = funded(SPONSOR, 1000);
    let mut chain = Chain::new();
    let receipt = entry_point.inner_handle_ops(&mut chain, &vec![], BENEFICIARY).unwrap();
    assert!(receipt.outcomes.is_empty());
    assert_eq!(receipt.events, vec![Event::BeforeExecution(BeforeExecution {})]);
    assert_eq!(chain.sent, vec![(BENEFICIARY, 0)]);
}

fn group(ops: Vec<UserOperation>, aggregator: Aggregator) -> UserOpsPerAggregator {
    UserOpsPerAggregator { user_ops: ops, aggregator, signature: vec![0x51] }
}

#[test]
fn aggregated_batch_asks_the_aggregator_and_expects_its_claim() {
    let mut entry_point = funded(SPONSOR, 1000);
    let mut chain = Chain::new();
    chain.account_answer = Ok(ValidationData {
        aggregator: Aggregator::VerifiedBy(AGGREGATOR),
        valid_after: 0,
        valid_until: 1_000_000,
    });
    let groups = vec![group(
        vec![sponsored(SENDER, 0), sponsored(OTHER, 0)],
        Aggregator::VerifiedBy(AGGREGATOR),
    )];
    let receipt = entry_point.handle_aggregated_ops(&mut chain, groups, BENEFICIARY).unwrap();
    assert_eq!(chain.signature_checks, vec![(AGGREGATOR, 2, vec![0x51])]);
    assert_eq!(
        receipt.outcomes,
        vec![
            OpOutcome::Settled { actual_gas_cost: 20 },
            OpOutcome::Settled { actual_gas_cost: 20 }
        ]
    );
    assert_eq!(receipt.collected, 40);
    assert_eq!(entry_point.balance_of(SPONSOR), 960);
    assert_eq!(settlements(&receipt).len(), 2);
    assert_eq!(chain.sent, vec![(BENEFICIARY, 40)]);
}

#[test]
fn aggregated_batch_fails_as_a_whole() {
    let mut entry_point = funded(SPONSOR, 1000);
    let before = (rows(&entry_point), nonces(&entry_point));

    let groups = vec![group(vec![sponsored(SENDER, 0)], Aggregator::FailedVerification)];
    let mut chain = Chain::new();
    assert_eq!(
        entry_point.handle_aggregated_ops(&mut chain, groups, BENEFICIARY),
        Err(Error::InvalidAggregator)
    );
    assert!(chain.missing_funds.is_empty());

    // The second group claims a failed verification after the first was charged.
    let groups = vec![
        group(vec![sponsored(SENDER, 0)], Aggregator::VerifiedBySelf),
        group(vec![sponsored(OTHER, 0)], Aggregator::FailedVerification),
    ];
    assert_eq!(
        entry_point.handle_aggregated_ops(&mut Chain::new(), groups, BENEFICIARY),
        Err(Error::InvalidAggregator)
    );
    assert_eq!((rows(&entry_point), nonces(&entry_point)), before);

    let groups = vec![group(vec![sponsored(SENDER, 0)], Aggregator::VerifiedBy(AGGREGATOR))];
    let mut chain = Chain::new();
    chain.signature_answer = Err(Error::SignatureValidationFailed { aggregator: AGGREGATOR });
    assert_eq!(
        entry_point.handle_aggregated_ops(&mut chain, groups, BENEFICIARY),
        Err(Error::SignatureValidationFailed { aggregator: AGGREGATOR })
    );

    // The account vouches for itself where the group's aggregator is expected.
    let groups = vec![group(
        vec![sponsored(SENDER, 0), sponsored(OTHER, 0)],
        Aggregator::VerifiedBy(AGGREGATOR),
    )];
    assert_eq!(
        entry_point.handle_aggregated_ops(&mut Chain::new(), groups, BENEFICIARY),
        Err(failed(0, "AA24 signature error"))
    );
    assert_eq!((rows(&entry_point), nonces(&entry_point)), before);

    // One rejected operation fails the whole call, though the group before it was accepted.
    let groups = vec![
        group(vec![sponsored(SENDER, 0)], Aggregator::VerifiedBySelf),
        group(vec![sponsored(OTHER, 5)], Aggregator::VerifiedBySelf),
    ];
    assert_eq!(
        entry_point.inner_handle_aggregated_ops(&mut Chain::new(), groups, BENEFICIARY),
        Err(Error::InvalidAccountNonce)
    );
    assert_eq!((rows(&entry_point), nonces(&entry_point)), before);
}

#[test]
fn coordinator_hands_out_its_ledgers() {
    let mut entry_point = funded(SENDER, 12);
    assert_eq!(entry_point.get_deposit_info(SENDER).deposit, 12);
    assert_eq!(entry_point.balance_of(SENDER), 12);
    entry_point.increment_nonce(SENDER, [0u8; 24]);
    assert_eq!(entry_point.get_nonce(SENDER, [0u8; 24]), nonce_of([0u8; 24], 1));
    let copy = entry_point.snapshot();
    entry_point.increment_nonce(SENDER, [0u8; 24]);
    assert_eq!(copy.get_nonce(SENDER, [0u8; 24]), nonce_of([0u8; 24], 1));
    assert_eq!(copy.account_id, ENTRY);
    let info = UserOpInfo::default();
    assert_eq!(info.clone().prefund, 0);
    assert_eq!(entry_point.get_user_op_gas_price(&sponsored(SENDER, 0)), 2);
    let told = entry_point.rejection(&sponsored(SENDER, 0), &Error::OutOfGas);
    match told {
        Event::ReturnValue(value) => {
            assert!(!value.success);
            assert_eq!(value.result, OpaqueTypes(b"OutOfGas".to_vec()));
        }
        other => panic!("unexpected {other:?}"),
    }
}

#[test]
fn the_call_of_an_operation_sends_no_value() {
    let mut op = sponsored(SENDER, 0);
    op.call_data = vec![1, 2];
    assert_eq!(call_of(&op), Transaction::new(TARGET, [99, 58, 165, 81], vec![1, 2], 50));
    assert_eq!(call_of(&op).transferred_value, 0);
}

#[test]
fn post_op_cost_is_gas_times_price_without_bounds() {
    let mut op = sponsored(SENDER, 0);
    assert_eq!(post_op_cost(&op, 75), 150);
    op.max_fee_per_gas = u64::MAX;
    op.max_priority_fee_per_gas = u64::MAX;
    assert_eq!(post_op_cost(&op, u64::MAX), (u64::MAX as u128) * (u64::MAX as u128));
}

#[test]
fn gas_spent_is_checked() {
    assert_eq!(gas_spent(100, 90, 5), Ok(15));
    assert_eq!(gas_spent(100, 100, 0), Ok(0));
    assert_eq!(gas_spent(100, 101, 0), Err(Error::GasValuesOverflow));
    assert_eq!(gas_spent(100, 90, u64::MAX - 9), Err(Error::GasValuesOverflow));
    assert_eq!(gas_spent(100, 90, u64::MAX - 10), Ok(u64::MAX));
}

#[test]
fn pre_op_gas_holds_validation_to_its_limit() {
    let op = sponsored(SENDER, 0);
    assert_eq!(pre_op_gas(&op, 1000, 900, 880), Ok(130));
    assert_eq!(pre_op_gas(&op, 1000, 899, 880), Err(Error::OverVerificationGasLimit));
    assert_eq!(pre_op_gas(&op, 1000, 1001, 880), Err(Error::GasValuesOverflow));
    assert_eq!(pre_op_gas(&op, 1000, 900, 1001), Err(Error::GasValuesOverflow));
    let mut heavy = sponsored(SENDER, 0);
    heavy.pre_verification_gas = u64::MAX;
    assert_eq!(pre_op_gas(&heavy, 1000, 1000, 999), Err(Error::GasValuesOverflow));
    assert_eq!(pre_op_gas(&heavy, 1000, 1000, 1000), Ok(u64::MAX));
}

#[test]
fn call_outcome_tells_and_sets_the_mode() {
    let entry_point = EntryPoint::new(ENTRY);
    let op = sponsored(SENDER, 0);
    let info = accepted(&entry_point, &op, 320, 0);
    assert_eq!(
        call_outcome(&info, Ok(OpaqueTypes(vec![1]))),
        (
            Event::ReturnValue(UserOperationReturnValue {
                user_op_hash: info.user_op_hash,
                success: true,
                result: OpaqueTypes(vec![1]),
            }),
            PostOpMode::OpSucceeded
        )
    );
    assert_eq!(
        call_outcome(&info, Err(vec![2])),
        (
            Event::RevertReason(UserOperationRevertReason {
                user_op_hash: info.user_op_hash,
                sender: SENDER,
                nonce: op.nonce,
                revert_reason: vec![2],
            }),
            PostOpMode::OpReverted
        )
    );
    assert_eq!(settle_post_op(3, Ok(())), Ok(()));
    assert_eq!(
        settle_post_op(3, Err(Error::NotStaked)),
        Err(failed(3, "AA50 postOp reverted: NotStaked"))
    );
}

#[test]
fn coordinator_is_a_deposit_ledger() {
    let mut entry_point = EntryPoint::new(ENTRY);
    let mut chain = Chain::new();
    assert!(IStakeManager::deposit_to(&mut entry_point, SENDER, 50).is_ok());
    assert!(IStakeManager::add_stake(&mut entry_point, SENDER, 7, 3).is_ok());
    assert!(IStakeManager::unlock_stake(&mut entry_point, SENDER, 10).is_ok());
    assert!(IStakeManager::withdraw_stake(&mut entry_point, &mut chain, SENDER, 13, OTHER).is_ok());
    assert!(IStakeManager::withdraw_to(&mut entry_point, &mut chain, SENDER, OTHER, 20).is_ok());
    assert_eq!(IStakeManager::balance_of(&entry_point, SENDER), 30);
    assert_eq!(IStakeManager::get_deposit_info(&entry_point, SENDER).stake, 0);
    assert_eq!(chain.sent, vec![(OTHER, 7), (OTHER, 20)]);
}

#[test]
fn aggregated_batch_that_asks_nothing_only_pays_the_beneficiary() {
    let mut entry_point = funded(SPONSOR, 1000);
    let before = (rows(&entry_point), nonces(&entry_point));

    let mut chain = Chain::new();
    assert_eq!(
        entry_point.handle_aggregated_ops(&mut chain, vec![], ZERO),
        Err(Error::InvalidBeneficiary)
    );
    assert_eq!(
        entry_point.handle_aggregated_ops(
            &mut chain,
            vec![group(vec![], Aggregator::VerifiedBySelf), group(vec![], Aggregator::VerifiedBySelf)],
            ZERO
        ),
        Err(Error::InvalidBeneficiary)
    );
    assert!(chain.sent.is_empty());
    assert!(chain.signature_checks.is_empty());

    chain.refuse_transfer = true;
    assert_eq!(
        entry_point.handle_aggregated_ops(
            &mut chain,
            vec![group(vec![], Aggregator::VerifiedBySelf)],
            BENEFICIARY
        ),
        Err(Error::FailedSendToBeneficiary)
    );

    chain.refuse_transfer = false;
    let receipt = entry_point
        .handle_aggregated_ops(&mut chain, vec![group(vec![], Aggregator::VerifiedBySelf)], BENEFICIARY)
        .unwrap();
    assert!(receipt.outcomes.is_empty());
    assert_eq!(receipt.collected, 0);
    assert_eq!(receipt.events, vec![Event::BeforeExecution(BeforeExecution {})]);
    assert_eq!(chain.sent, vec![(BENEFICIARY, 0)]);
    assert_eq!((rows(&entry_point), nonces(&entry_point)), before);
}

#[test]
fn coordinator_as_a_ledger_refuses_for_the_reason_that_holds() {
    let mut entry_point = EntryPoint::new(ENTRY);
    let mut chain = Chain::new();
    assert_eq!(
        IStakeManager::withdraw_stake(&mut entry_point, &mut chain, SENDER, 5, OTHER),
        Err(Error::NoStakeToWithdraw)
    );
    assert_eq!(
        IStakeManager::withdraw_to(&mut entry_point, &mut chain, SENDER, OTHER, 1),
        Err(Error::WithdrawAmountTooLarge)
    );
    IStakeManager::deposit_to(&mut entry_point, SENDER, 10).unwrap();
    IStakeManager::add_stake(&mut entry_point, SENDER, 4, 3).unwrap();
    assert_eq!(
        IStakeManager::withdraw_stake(&mut entry_point, &mut chain, SENDER, 5, OTHER),
        Err(Error::MustCallUnlockStakeFirst)
    );
    IStakeManager::unlock_stake(&mut entry_point, SENDER, 5).unwrap();
    assert_eq!(
        IStakeManager::withdraw_stake(&mut entry_point, &mut chain, SENDER, 7, OTHER),
        Err(Error::StakeWithdrawalIsNotDue)
    );
    chain.refuse_transfer = true;
    assert_eq!(
        IStakeManager::withdraw_stake(&mut entry_point, &mut chain, SENDER, 8, OTHER),
        Err(Error::FailedToWithdrawStake)
    );
    assert_eq!(
        IStakeManager::withdraw_to(&mut entry_point, &mut chain, SENDER, OTHER, 10),
        Err(Error::FailedToWithdraw)
    );
    assert_eq!(IStakeManager::get_deposit_info(&entry_point, SENDER).stake, 4);
    assert_eq!(IStakeManager::balance_of(&entry_point, SENDER), 10);
    chain.refuse_transfer = false;
    assert_eq!(
        IStakeManager::withdraw_stake(&mut entry_point, &mut chain, SENDER, 8, OTHER),
        Ok(ink_aa::stake_manager::StakeWithdrawn { account: SENDER, withdraw_address: OTHER, amount: 4 })
    );
    assert_eq!(
        IStakeManager::withdraw_to(&mut entry_point, &mut chain, SENDER, OTHER, 10),
        Ok(ink_aa::stake_manager::Withdrawn { account: SENDER, withdraw_address: OTHER, amount: 10 })
    );
    assert_eq!(chain.sent, vec![(OTHER, 4), (OTHER, 10)]);
}

#[test]
fn gas_budget_needs_both_limits_and_the_overhead() {
    let op = sponsored(SENDER, 0);
    assert_eq!(check_gas_budget(&op, 5149), Err(Error::OutOfGas));
    assert_eq!(check_gas_budget(&op, 5150), Ok(()));
    assert_eq!(check_gas_budget(&op, 0), Err(Error::OutOfGas));
    assert_eq!(check_gas_budget(&op, u64::MAX), Ok(()));
    let mut wide = sponsored(SENDER, 0);
    wide.call_gas_limit = u64::MAX - 5099;
    assert_eq!(check_gas_budget(&wide, u64::MAX), Err(Error::GasValuesOverflow));
    wide.call_gas_limit = u64::MAX - 5100;
    assert_eq!(check_gas_budget(&wide, u64::MAX), Ok(()));
    assert_eq!(check_gas_budget(&wide, u64::MAX - 1), Err(Error::OutOfGas));
    wide.call_gas_limit = u64::MAX;
    wide.verification_gas_limit = 1;
    assert_eq!(check_gas_budget(&wide, u64::MAX), Err(Error::GasValuesOverflow));
}

#[test]
fn too_little_gas_runs_nothing_of_the_operation() {
    let mut entry_point = funded(SPONSOR, 680);
    let op = sponsored(SENDER, 0);
    let info = accepted(&entry_point, &op, 320, 10);
    let before = rows(&entry_point);
    let mut chain = Chain::new();
    chain.gas = 5149;
    let mut events = Vec::new();
    assert_eq!(
        entry_point.inner_handle_op(&mut chain, &mut events, &op.call_data, &info, &Vec::new()),
        Err(Error::OutOfGas)
    );
    assert!(events.is_empty());
    assert!(chain.calls.is_empty());
    assert_eq!(rows(&entry_point), before);
    let mut events = Vec::new();
    assert_eq!(
        entry_point.execute_user_op(&mut chain, &mut events, 0, &op, &info),
        Err(Error::OutOfGas)
    );
    assert!(events.is_empty());
    assert_eq!(rows(&entry_point), before);
}

#[test]
fn first_run_stands_unless_it_failed_for_another_reason_than_gas() {
    assert_eq!(first_run(Ok(160)), Some(Ok(160)));
    assert_eq!(first_run(Ok(0)), Some(Ok(0)));
    assert_eq!(first_run(Err(Error::OutOfGas)), Some(Err(Error::OutOfGas)));
    assert_eq!(first_run(Err(Error::GasValuesOverflow)), None);
    assert_eq!(first_run(Err(failed(0, "AA50 postOp reverted: NotOwner"))), None);
}

#[test]
fn nonce_is_used_after_the_account_phase() {
    let op = sponsored(SENDER, 0);
    let mut entry_point = funded(SPONSOR, 1000);
    let before = (rows(&entry_point), nonces(&entry_point));

    assert_eq!(
        entry_point.use_nonce(&op, Err(failed(3, "AA23 reverted: NotOwner"))),
        Err(failed(3, "AA23 reverted: NotOwner"))
    );
    assert_eq!((rows(&entry_point), nonces(&entry_point)), before);

    assert_eq!(
        entry_point.use_nonce(&sponsored(SENDER, 1), Ok((7, always()))),
        Err(Error::InvalidAccountNonce)
    );
    assert_eq!((rows(&entry_point), nonces(&entry_point)), before);

    // A wrong nonce is told before a missing sponsor.
    assert_eq!(
        entry_point.use_nonce(&unsponsored(SENDER, 1), Ok((7, always()))),
        Err(Error::InvalidAccountNonce)
    );
    assert_eq!(
        entry_point.use_nonce(&unsponsored(SENDER, 0), Ok((7, always()))),
        Err(Error::InvalidPaymasterAddress)
    );
    assert_eq!((rows(&entry_point), nonces(&entry_point)), before);

    assert_eq!(entry_point.use_nonce(&op, Ok((7, always()))), Ok((7, always())));
    assert_eq!(rows(&entry_point), before.0);
    assert_eq!(entry_point.get_nonce(SENDER, [0u8; 24]), nonce_of([0u8; 24], 1));
    assert_eq!(entry_point.get_nonce(OTHER, [0u8; 24]), nonce_of([0u8; 24], 0));
    assert_eq!(entry_point.use_nonce(&op, Ok((7, always()))), Err(Error::InvalidAccountNonce));
}

#[test]
fn wrong_nonce_is_told_after_the_sender_was_asked() {
    let mut entry_point = funded(SPONSOR, 1000);
    let mut chain = Chain::new();
    let before = (rows(&entry_point), nonces(&entry_point));
    assert_eq!(
        entry_point.validate_prepayment(
            &mut chain,
            0,
            &sponsored(SENDER, 5),
            &mut UserOpInfo::default()
        ),
        Err(Error::InvalidAccountNonce)
    );
    assert_eq!(chain.missing_funds.len(), 1);
    assert!(chain.max_costs.is_empty());
    assert_eq!((rows(&entry_point), nonces(&entry_point)), before);
}

#[test]
fn a_batch_records_each_execution() {
    assert_eq!(
        record_execution(40, Ok(160)),
        Ok((200, OpOutcome::Settled { actual_gas_cost: 160 }))
    );
    assert_eq!(
        record_execution(u64::MAX - 160, Ok(160)),
        Ok((u64::MAX, OpOutcome::Settled { actual_gas_cost: 160 }))
    );
    assert_eq!(record_execution(u64::MAX - 159, Ok(160)), Err(Error::GasValuesOverflow));
    assert_eq!(record_execution(40, Err(Error::OutOfGas)), Err(Error::OutOfGas));
    assert_eq!(
        record_execution(40, Err(failed(2, "AA51 prefund below actualGasCost"))),
        Ok((40, OpOutcome::Unsettled(failed(2, "AA51 prefund below actualGasCost"))))
    );
    assert_eq!(
        record_execution(40, Err(Error::DepositOverflow)),
        Ok((40, OpOutcome::Unsettled(Error::DepositOverflow)))
    );
}

#[test]
fn a_batch_of_groups_fails_with_any_execution() {
    assert_eq!(
        record_group_execution(40, Ok(160)),
        Ok((200, OpOutcome::Settled { actual_gas_cost: 160 }))
    );
    assert_eq!(record_group_execution(u64::MAX, Ok(1)), Err(Error::GasValuesOverflow));
    assert_eq!(record_group_execution(40, Err(Error::OutOfGas)), Err(Error::OutOfGas));
    assert_eq!(
        record_group_execution(40, Err(failed(2, "AA51 prefund below actualGasCost"))),
        Err(failed(2, "AA51 prefund below actualGasCost"))
    );
}

#[test]
fn an_empty_batch_needs_a_beneficiary() {
    let mut entry_point = funded(SPONSOR, 1000);
    let before = (rows(&entry_point), nonces(&entry_point));
    let mut chain = Chain::new();
    assert_eq!(entry_point.handle_ops(&mut chain, vec![], ZERO), Err(Error::InvalidBeneficiary));
    assert_eq!(
        entry_point.inner_handle_ops(&mut chain, &vec![], ZERO),
        Err(Error::InvalidBeneficiary)
    );
    assert!(chain.sent.is_empty());
    let receipt = entry_point.handle_ops(&mut chain, vec![], BENEFICIARY).unwrap();
    assert!(receipt.outcomes.is_empty());
    assert_eq!(receipt.collected, 0);
    assert_eq!(chain.sent, vec![(BENEFICIARY, 0)]);
    chain.refuse_transfer = true;
    assert_eq!(
        entry_point.handle_ops(&mut chain, vec![], BENEFICIARY),
        Err(Error::FailedSendToBeneficiary)
    );
    assert_eq!((rows(&entry_point), nonces(&entry_point)), before);
}

#[test]
fn an_operation_out_of_gas_fails_its_batch() {
    let ops = vec![sponsored(SENDER, 0), sponsored(OTHER, 0)];
    let mut entry_point = funded(SPONSOR, 1000);
    let before = (rows(&entry_point), nonces(&entry_point));
    // Both operations validate with gas to spare; when they are to run, too little is left.
    let mut chain = Chain::new();
    chain.gas_script = vec![9000; 10];
    chain.gas = 5149;
    let done = entry_point.handle_ops(&mut chain, ops, BENEFICIARY);
    assert_eq!(done, Err(Error::OutOfGas));
    assert_eq!((rows(&entry_point), nonces(&entry_point)), before);
    assert!(chain.sent.is_empty());
}

#[test]
fn a_group_tells_whom_to_ask() {
    let ops = vec![sponsored(SENDER, 0)];
    assert_eq!(
        aggregator_to_ask(&group(ops.clone(), Aggregator::FailedVerification)),
        Err(Error::InvalidAggregator)
    );
    assert_eq!(
        aggregator_to_ask(&group(ops.clone(), Aggregator::VerifiedBy(AGGREGATOR))),
        Ok(Some(AGGREGATOR))
    );
    assert_eq!(aggregator_to_ask(&group(ops.clone(), Aggregator::VerifiedBy(ZERO))), Ok(Some(ZERO)));
    assert_eq!(aggregator_to_ask(&group(ops, Aggregator::VerifiedBySelf)), Ok(None));
    assert_eq!(
        aggregator_to_ask(&group(vec![], Aggregator::FailedVerification)),
        Err(Error::InvalidAggregator)
    );
}

#[test]
fn answers_are_held_against_the_aggregator_of_the_group() {
    let entry_point = EntryPoint::new(ENTRY);
    let by = |aggregator| ValidationData { aggregator, valid_after: 0, valid_until: 1_000_000 };
    let vouched = group(vec![sponsored(SENDER, 0)], Aggregator::VerifiedBy(AGGREGATOR));
    let own = group(vec![sponsored(SENDER, 0)], Aggregator::VerifiedBySelf);
    assert_eq!(
        entry_point.validate_group_validation_data(
            0,
            &vouched,
            by(Aggregator::VerifiedBy(AGGREGATOR)),
            always(),
            500
        ),
        Ok(())
    );
    assert_eq!(
        entry_point.validate_group_validation_data(4, &vouched, always(), always(), 500),
        Err(failed(4, "AA24 signature error"))
    );
    assert_eq!(
        entry_point.validate_group_validation_data(
            4,
            &vouched,
            by(Aggregator::VerifiedBy(OTHER)),
            always(),
            500
        ),
        Err(failed(4, "AA24 signature error"))
    );
    assert_eq!(
        entry_point.validate_group_validation_data(
            1,
            &own,
            by(Aggregator::VerifiedBy(AGGREGATOR)),
            always(),
            500
        ),
        Err(failed(1, "AA24 signature error"))
    );
    assert_eq!(entry_point.validate_group_validation_data(1, &own, always(), always(), 500), Ok(()));
    assert_eq!(
        entry_point.validate_group_validation_data(
            2,
            &vouched,
            by(Aggregator::VerifiedBy(AGGREGATOR)),
            always(),
            1_000_001
        ),
        Err(failed(2, "AA22 expired or not due"))
    );
    assert_eq!(
        entry_point.validate_group_validation_data(
            2,
            &vouched,
            by(Aggregator::VerifiedBy(AGGREGATOR)),
            by(Aggregator::VerifiedBy(AGGREGATOR)),
            500
        ),
        Err(failed(2, "AA34 signature error"))
    );
}

#[test]
fn an_operation_of_a_group_is_validated_for_its_group() {
    let vouched = group(
        vec![sponsored(SENDER, 0), sponsored(OTHER, 0)],
        Aggregator::VerifiedBy(AGGREGATOR),
    );
    let mut entry_point = funded(SPONSOR, 1000);
    let before = (rows(&entry_point), nonces(&entry_point));

    // The sender claims no aggregator: the operation is rejected, its charge undone.
    let mut chain = Chain::new();
    assert_eq!(
        entry_point.validate_group_op(&mut chain, 1, &vouched, 1).map(|info| info.prefund),
        Err(failed(1, "AA24 signature error"))
    );
    assert_eq!((rows(&entry_point), nonces(&entry_point)), before);

    let mut chain = Chain::new();
    chain.account_answer = Ok(ValidationData {
        aggregator: Aggregator::VerifiedBy(AGGREGATOR),
        valid_after: 0,
        valid_until: 1_000_000,
    });
    let info = entry_point.validate_group_op(&mut chain, 1, &vouched, 1).unwrap();
    assert_eq!(info.user_op, sponsored(OTHER, 0));
    assert_eq!(info.prefund, 320);
    assert_eq!(entry_point.balance_of(SPONSOR), 680);
    assert_eq!(entry_point.get_nonce(OTHER, [0u8; 24]), nonce_of([0u8; 24], 1));
    assert_eq!(entry_point.get_nonce(SENDER, [0u8; 24]), nonce_of([0u8; 24], 0));

    // The same answer does not do for a batch that no aggregator vouches for.
    let mut plain = funded(SPONSOR, 1000);
    assert_eq!(
        plain
            .validate_op(&mut chain, 0, &sponsored(SENDER, 0), Aggregator::VerifiedBySelf)
            .map(|info| info.prefund),
        Err(failed(0, "AA24 signature error"))
    );
    assert_eq!(plain.balance_of(SPONSOR), 1000);
}

#[test]
fn each_payer_of_a_batch_pays_what_its_operation_cost() {
    let mut entry_point = funded(SPONSOR, 1000);
    entry_point.stake_manager.deposit_to(TARGET, 500).unwrap();
    entry_point.stake_manager.deposit_to(OTHER, 77).unwrap();
    let first = sponsored(SENDER, 0);
    let mut second = sponsored(OTHER, 0);
    second.paymaster_and_data = PaymasterAndData::OnlyPaymaster(TARGET);
    second.max_fee_per_gas = 3;
    second.max_priority_fee_per_gas = 3;
    let mut chain = Chain::stepping(10);
    let receipt = entry_point.handle_ops(&mut chain, vec![first, second], BENEFICIARY).unwrap();
    let costs: Vec<u64> = receipt
        .outcomes
        .iter()
        .map(|outcome| match outcome {
            OpOutcome::Settled { actual_gas_cost } => *actual_gas_cost,
            other => panic!("unexpected {other:?}"),
        })
        .collect();
    assert_eq!(costs.len(), 2);
    assert_eq!(entry_point.balance_of(SPONSOR), 1000 - costs[0] as Balance);
    assert_eq!(entry_point.balance_of(TARGET), 500 - costs[1] as Balance);
    assert_eq!(entry_point.balance_of(OTHER), 77);
    assert_eq!(entry_point.balance_of(SENDER), 0);
    assert_eq!(receipt.collected, costs[0] + costs[1]);
    assert_eq!(chain.sent, vec![(BENEFICIARY, (costs[0] + costs[1]) as Balance)]);
    assert_eq!(costs[0], 160);
}

#[test]
fn sponsor_phase_refuses_by_itself_only_for_gas_or_deposit() {
    let op = sponsored(SENDER, 0);
    let mut entry_point = funded(SPONSOR, 320);
    let info = accepted(&entry_point, &op, 0, 0);

    // The account phase used all the verification gas: the sponsor is not asked.
    let mut chain = Chain::new();
    assert_eq!(
        entry_point.validate_paymaster_prepayment(&mut chain, 0, &op, &info, 320, 100),
        Err(Error::TooLittleVerificationGas)
    );
    assert!(chain.max_costs.is_empty());
    assert_eq!(entry_point.balance_of(SPONSOR), 320);

    // The deposit is one short of the prefund: the sponsor is not asked.
    assert_eq!(
        entry_point.validate_paymaster_prepayment(&mut chain, 0, &op, &info, 321, 99),
        Err(Error::PaymasterDepositTooLow)
    );
    assert!(chain.max_costs.is_empty());
    assert_eq!(entry_point.balance_of(SPONSOR), 320);

    // Gas is told before the deposit.
    assert_eq!(
        entry_point.validate_paymaster_prepayment(&mut chain, 0, &op, &info, 321, 100),
        Err(Error::TooLittleVerificationGas)
    );

    // The sponsor refuses: the operation is rejected and the charge undone.
    let mut chain = Chain::new();
    chain.sponsor_answer = Err(Error::PaymasterNotFound);
    assert_eq!(
        entry_point.validate_paymaster_prepayment(&mut chain, 6, &op, &info, 320, 99),
        Err(failed(6, "AA33 reverted: PaymasterNotFound"))
    );
    assert_eq!(chain.max_costs, vec![320]);
    assert_eq!(entry_point.balance_of(SPONSOR), 320);

    // The deposit just covers the prefund: the sponsor is charged and asked.
    let mut chain = Chain::new();
    chain.sponsor_answer = Ok((vec![7], always()));
    assert_eq!(
        entry_point.validate_paymaster_prepayment(&mut chain, 0, &op, &info, 320, 99),
        Ok((vec![7], always()))
    );
    assert_eq!(chain.max_costs, vec![320]);
    assert_eq!(chain.hashes, Vec::<[u8; 32]>::new());
    assert_eq!(entry_point.balance_of(SPONSOR), 0);
}

#[test]
fn a_gas_sum_beyond_64_bits_leaves_the_log_alone() {
    let mut entry_point = funded(SPONSOR, 680);
    let mut op = sponsored(SENDER, 0);
    op.call_gas_limit = u64::MAX;
    op.verification_gas_limit = 1;
    op.call_data = vec![1];
    let info = accepted(&entry_point, &op, 320, 10);
    let before = rows(&entry_point);
    let mut chain = Chain::new();
    chain.gas = u64::MAX;
    let mut events = vec![Event::BeforeExecution(BeforeExecution {})];
    assert_eq!(
        entry_point.inner_handle_op(&mut chain, &mut events, &op.call_data, &info, &Vec::new()),
        Err(Error::GasValuesOverflow)
    );
    assert_eq!(events, vec![Event::BeforeExecution(BeforeExecution {})]);
    assert!(chain.calls.is_empty());
    assert!(chain.post_ops.is_empty());
    assert_eq!(rows(&entry_point), before);
}

#[test]
fn the_log_of_a_batch_names_each_operation() {
    let first = sponsored(SENDER, 0);
    let refused = sponsored(OTHER, 0);
    // Its prefund of 100 does not cover what running it costs.
    let mut short = sponsored(TARGET, 0);
    short.verification_gas_limit = 40;
    short.call_gas_limit = 0;
    let last = sponsored(SENDER, 1);
    let ops = vec![first.clone(), refused.clone(), short.clone(), last.clone()];

    let mut entry_point = funded(SPONSOR, 1000);
    let mut chain = Chain::stepping(10);
    chain.refusing_senders = vec![OTHER];
    let receipt = entry_point.handle_ops(&mut chain, ops, BENEFICIARY).unwrap();

    assert!(matches!(receipt.outcomes[0], OpOutcome::Settled { .. }));
    assert!(matches!(receipt.outcomes[1], OpOutcome::Rejected(_)));
    assert!(matches!(receipt.outcomes[2], OpOutcome::Unsettled(Error::FailedOp { op_index: 2, .. })));
    assert!(matches!(receipt.outcomes[3], OpOutcome::Settled { .. }));

    let told_as_rejected: Vec<([u8; 32], Vec<u8>)> = receipt
        .events
        .iter()
        .filter_map(|event| match event {
            Event::ReturnValue(value) if !value.success => {
                Some((value.user_op_hash, value.result.0.clone()))
            }
            _ => None,
        })
        .collect();
    let unsettled_for = match &receipt.outcomes[2] {
        OpOutcome::Unsettled(e) => format!("{e:?}").into_bytes(),
        other => panic!("unexpected {other:?}"),
    };
    assert_eq!(
        told_as_rejected,
        vec![
            (
                entry_point.inner_get_user_op_hash(&refused),
                b"FailedOp { op_index: 1, reason: \"AA23 reverted: NotFromEntryPoint\" }".to_vec()
            ),
            (entry_point.inner_get_user_op_hash(&short), unsettled_for)
        ]
    );
    for (event, op) in settlements(&receipt).iter().zip([&first, &last]) {
        assert_eq!(event.sender, op.sender);
        assert_eq!(event.paymaster, SPONSOR);
        assert_eq!(event.nonce, op.nonce);
    }
    let told_as_settled: Vec<([u8; 32], u64)> = settlements(&receipt)
        .iter()
        .map(|event| (event.user_op_hash, event.actual_gas_cost))
        .collect();
    let costs: Vec<u64> = receipt
        .outcomes
        .iter()
        .filter_map(|outcome| match outcome {
            OpOutcome::Settled { actual_gas_cost } => Some(*actual_gas_cost),
            _ => None,
        })
        .collect();
    assert_eq!(
        told_as_settled,
        vec![
            (entry_point.inner_get_user_op_hash(&first), costs[0]),
            (entry_point.inner_get_user_op_hash(&last), costs[1])
        ]
    );
    assert!(matches!(receipt.events[0], Event::ReturnValue(_)));
    assert_eq!(receipt.events[1], Event::BeforeExecution(BeforeExecution {}));
    assert!(matches!(receipt.events[2], Event::Operation(_)));
    assert!(matches!(receipt.events[3], Event::ReturnValue(_)));
    assert!(matches!(receipt.events[4], Event::Operation(_)));
    assert_eq!(receipt.events.len(), 5);
    assert_eq!(receipt.collected, costs[0] + costs[1]);
    // The operation that could not be settled stays charged its prefund.
    assert_eq!(
        entry_point.balance_of(SPONSOR),
        1000 - 100 - (costs[0] + costs[1]) as Balance
    );
}

#[test]
fn coordinator_as_a_ledger_leaves_nonces_and_address_alone() {
    let mut entry_point = EntryPoint::new(ENTRY);
    entry_point.increment_nonce(SENDER, [0u8; 24]);
    let mut chain = Chain::new();
    let before = nonces(&entry_point);
    assert_eq!(
        IStakeManager::deposit_to(&mut entry_point, SENDER, 50).map(|told| told.total_deposit),
        Ok(50)
    );
    assert_eq!(
        IStakeManager::deposit_to(&mut entry_point, SENDER, Balance::MAX).map(|_| ()),
        Err(Error::DepositOverflow)
    );
    assert_eq!(
        IStakeManager::add_stake(&mut entry_point, SENDER, 7, 0).map(|_| ()),
        Err(Error::MustSpecifyUnstakeDelay)
    );
    assert_eq!(
        IStakeManager::add_stake(&mut entry_point, SENDER, 7, 3).map(|told| told.total_staked),
        Ok(7)
    );
    assert_eq!(
        IStakeManager::unlock_stake(&mut entry_point, OTHER, 10).map(|_| ()),
        Err(Error::NotStaked)
    );
    assert_eq!(
        IStakeManager::unlock_stake(&mut entry_point, SENDER, 10).map(|told| told.withdraw_time),
        Ok(13)
    );
    assert_eq!(
        IStakeManager::withdraw_stake(&mut entry_point, &mut chain, SENDER, 12, OTHER).map(|_| ()),
        Err(Error::StakeWithdrawalIsNotDue)
    );
    assert_eq!(
        IStakeManager::withdraw_to(&mut entry_point, &mut chain, SENDER, OTHER, 51).map(|_| ()),
        Err(Error::WithdrawAmountTooLarge)
    );
    assert_eq!(nonces(&entry_point), before);
    assert_eq!(entry_point.account_id, ENTRY);
}

#[test]
fn the_sponsor_is_told_only_if_it_gave_a_context() {
    assert!(asks_sponsor(&sponsored(SENDER, 0), &vec![1]));
    assert!(!asks_sponsor(&sponsored(SENDER, 0), &vec![]));
    assert!(!asks_sponsor(&unsponsored(SENDER, 0), &vec![1]));
    assert!(!asks_sponsor(&unsponsored(SENDER, 0), &vec![]));
}
