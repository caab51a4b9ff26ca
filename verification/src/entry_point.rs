//! The coordinator: its two ledgers, the identifier it gives an operation,
//! the prefund an operation needs, and the checks on what validation answered.

use vstd::prelude::*;
use crate::env::{all_zero, is_all_zero, AccountId, Balance, Timestamp};
use crate::codec::{append_bytes, copy_bytes, scale_encode_array, scale_encode_short_bytes, spec_scale_short_bytes};
use crate::error::{is_rejection, rejected, Error};
use crate::helpers::{keccak256, keccak256_digest, Aggregator, ValidationData};
use crate::host::Host;
use crate::nonce_manager::{spec_validate_and_update_nonce, NonceManager};
use crate::stake_manager::{spec_credit, spec_debit, spec_written, DepositInfo, Deposited, IStakeManager, StakeLocked, StakeManager, StakeUnlocked, StakeWithdrawn, Withdrawn};
use crate::user_operation::{UserOperation, UserOperationView};

verus! {

/// Both ledgers of the coordinator, as contracts see them.
pub struct Ledgers {
    /// For each account, its row in the deposit ledger.
    pub deposits: Map<AccountId, DepositInfo>,
    /// For each sender and key, the next nonce.
    pub nonces: Map<(AccountId, Seq<u8>), Seq<u8>>,
}

/// The gas that must be left, beyond the limits of an operation, for the operation to be run.
pub const EXECUTION_OVERHEAD_GAS: u64 = 5000;

/// The prefund an operation needs: its price ceiling times the gas it may
/// use. Without a sponsor the verification gas counts three times.
pub open spec fn spec_required_prefund(op: UserOperationView) -> Result<u64, Error> {
    let mul: int = if op.paymaster_and_data.is_eq_zero() {
        3
    } else {
        1
    };
    let gas = op.verification_gas_limit * mul + op.call_gas_limit + op.pre_verification_gas;
    if gas > u64::MAX || gas * op.max_fee_per_gas > u64::MAX {
        Err(Error::GasValuesOverflow)
    } else {
        Ok((gas * op.max_fee_per_gas) as u64)
    }
}

/// The prefund of an operation, zero where it has none.
pub open spec fn spec_prefund(op: UserOperationView) -> u64 {
    match spec_required_prefund(op) {
        Ok(prefund) => prefund,
        Err(_) => 0,
    }
}

/// Who pays for an operation: its sponsor, or its sender if it names none.
pub open spec fn spec_payer(op: UserOperationView) -> AccountId {
    if op.paymaster_and_data.is_eq_zero() {
        op.sender
    } else {
        op.paymaster_and_data.paymaster()
    }
}

/// What the sender's deposit is short of the prefund, told to the sender when it is asked.
pub open spec fn spec_missing_account_funds(
    op: UserOperationView,
    balance: Balance,
    required_prefund: Balance,
) -> Balance {
    if op.paymaster_and_data.is_eq_zero() && balance <= required_prefund {
        (required_prefund - balance) as Balance
    } else {
        0
    }
}

/// The identifier the coordinator `entry_point` gives an operation: the
/// digest of the operation's canonical hash followed by the coordinator's
/// own account, written as a SCALE byte string.
pub open spec fn spec_user_op_hash(op: UserOperationView, entry_point: AccountId) -> crate::env::Hash {
    keccak256_digest(op.hash()@ + spec_scale_short_bytes(entry_point@))
}

/// Whether the ledgers let an operation be accepted: its prefund fits in 64
/// bits, it names a sponsor, its nonce is the one its sender has to use
/// next, and the deposit of its payer covers the prefund.
pub open spec fn spec_acceptable(ledgers: Ledgers, op: UserOperationView) -> bool {
    &&& spec_required_prefund(op) is Ok
    &&& !op.paymaster_and_data.is_eq_zero()
    &&& ledgers.nonces[(op.sender, crate::nonce_manager::spec_nonce_key(op.nonce@))] == op.nonce@
    &&& spec_prefund(op) <= ledgers.deposits[spec_payer(op)].deposit
}

/// The ledgers once an operation was accepted: its payer is debited the
/// prefund and its sender's nonce is used.
pub open spec fn spec_charge(ledgers: Ledgers, op: UserOperationView) -> Ledgers {
    Ledgers {
        deposits: spec_written(
            ledgers.deposits,
            spec_payer(op),
            spec_debit(ledgers.deposits[spec_payer(op)], spec_prefund(op) as Balance),
        ),
        nonces: spec_validate_and_update_nonce(ledgers.nonces, op.sender, op.nonce@).0,
    }
}

/// The ledgers once an operation with the prefund `prefund` was settled at
/// `cost`: its payer is credited what of the prefund was not spent.
pub open spec fn spec_refund(
    ledgers: Ledgers,
    op: UserOperationView,
    prefund: u64,
    cost: u64,
) -> Ledgers {
    Ledgers {
        deposits: spec_written(
            ledgers.deposits,
            spec_payer(op),
            spec_credit(ledgers.deposits[spec_payer(op)], (prefund - cost) as Balance),
        ),
        nonces: ledgers.nonces,
    }
}

/// What the coordinator keeps of an operation between its validation and its settlement.
pub struct UserOpInfo {
    /// The operation.
    pub user_op: UserOperation,
    /// The identifier the coordinator gave it.
    pub user_op_hash: [u8; 32],
    /// What was taken from the payer's deposit.
    pub prefund: u64,
    /// What the sponsor handed back for its post-operation hook.
    pub context: Vec<u8>,
    /// The gas used before the call, pre-verification gas included.
    pub pre_op_gas: u64,
}

/// `UserOpInfo` as contracts see it.
pub struct UserOpInfoView {
    pub user_op: UserOperationView,
    pub user_op_hash: [u8; 32],
    pub prefund: u64,
    pub context: Seq<u8>,
    pub pre_op_gas: u64,
}

impl View for UserOpInfo {
    type V = UserOpInfoView;

    open spec fn view(&self) -> UserOpInfoView {
        UserOpInfoView {
            user_op: self.user_op@,
            user_op_hash: self.user_op_hash,
            prefund: self.prefund,
            context: self.context@,
            pre_op_gas: self.pre_op_gas,
        }
    }
}

impl Default for UserOpInfo {
    fn default() -> (info: Self)
        ensures
            info@.prefund == 0,
            info@.pre_op_gas == 0,
            info@.context.len() == 0,
            all_zero(info@.user_op_hash@),
    {
        UserOpInfo {
            user_op: UserOperation::default(),
            user_op_hash: [0u8; 32],
            prefund: 0,
            context: Vec::new(),
            pre_op_gas: 0,
        }
    }
}

impl Clone for UserOpInfo {
    fn clone(&self) -> (copy: Self)
        ensures
            copy@ == self@,
    {
        UserOpInfo {
            user_op: self.user_op.clone(),
            user_op_hash: self.user_op_hash,
            prefund: self.prefund,
            context: copy_bytes(self.context.as_slice()),
            pre_op_gas: self.pre_op_gas,
        }
    }
}

/// The gas spent since the meter read `pre_gas`, now that it reads
/// `gas_left`, added to what was spent before, `so_far`. A meter that reads
/// more than it did, or a sum beyond 64 bits, is a fault.
pub open spec fn spec_gas_spent(pre_gas: u64, gas_left: u64, so_far: u64) -> Result<u64, Error> {
    if gas_left > pre_gas || pre_gas - gas_left + so_far > u64::MAX {
        Err(Error::GasValuesOverflow)
    } else {
        Ok((pre_gas - gas_left + so_far) as u64)
    }
}

/// The gas spent since the meter read `pre_gas`, now that it reads
/// `gas_left`, added to what was spent before, `so_far`.
pub fn gas_spent(pre_gas: u64, gas_left: u64, so_far: u64) -> (spent: Result<u64, Error>)
    ensures
        spent == spec_gas_spent(pre_gas, gas_left, so_far),
{
    match pre_gas.checked_sub(gas_left) {
        Some(used) => match used.checked_add(so_far) {
            Some(spent) => Ok(spent),
            None => Err(Error::GasValuesOverflow),
        },
        None => Err(Error::GasValuesOverflow),
    }
}

/// The gas an operation has used before its call, pre-verification gas
/// included, given what the meter read when validation began, when it was
/// done and once more at the end. Validation must not have used more than
/// the operation's verification gas.
pub open spec fn spec_pre_op_gas(
    op: UserOperationView,
    pre_gas: u64,
    gas_after_validation: u64,
    gas_at_end: u64,
) -> Result<u64, Error> {
    match spec_gas_spent(pre_gas, gas_after_validation, 0) {
        Err(e) => Err(e),
        Ok(gas_used) => if op.verification_gas_limit < gas_used {
            Err(Error::OverVerificationGasLimit)
        } else {
            spec_gas_spent(pre_gas, gas_at_end, op.pre_verification_gas)
        },
    }
}

/// The gas an operation has used before its call, pre-verification gas
/// included; see `spec_pre_op_gas`.
pub fn pre_op_gas(user_op: &UserOperation, pre_gas: u64, gas_after_validation: u64, gas_at_end: u64) -> (gas:
    Result<u64, Error>)
    ensures
        gas == spec_pre_op_gas(user_op@, pre_gas, gas_after_validation, gas_at_end),
{
    let gas_used = match gas_spent(pre_gas, gas_after_validation, 0) {
        Ok(gas) => gas,
        Err(e) => {
            return Err(e);
        },
    };
    if user_op.verification_gas_limit < gas_used {
        return Err(Error::OverVerificationGasLimit);
    }
    gas_spent(pre_gas, gas_at_end, user_op.pre_verification_gas)
}

/// Whether the instant `now` lies outside the window of a validation answer.
pub open spec fn spec_out_of_time_range(data: ValidationData, now: Timestamp) -> bool {
    now > data.valid_until || now < data.valid_after
}

/// What a validation answer claims: the aggregator, and whether `now` lies
/// outside its window. The all-zero answer claims a failed verification.
pub open spec fn spec_validation_data(data: ValidationData, now: Timestamp) -> (Aggregator, bool) {
    if data.spec_is_failure_sentinel() {
        (Aggregator::FailedVerification, false)
    } else {
        (data.aggregator, spec_out_of_time_range(data, now))
    }
}

/// Why the answers of the sender and of the sponsor do not let an operation
/// run at the instant `now` with the aggregator `expected`, if they do not.
pub open spec fn spec_validation_fault(
    account: ValidationData,
    paymaster: ValidationData,
    expected: Aggregator,
    now: Timestamp,
) -> Option<Seq<char>> {
    let (aggregator, out_of_time_range) = spec_validation_data(account, now);
    let (pm_aggregator, pm_out_of_time_range) = spec_validation_data(paymaster, now);
    if expected != aggregator {
        Some("AA24 signature error"@)
    } else if out_of_time_range {
        Some("AA22 expired or not due"@)
    } else if pm_aggregator != Aggregator::VerifiedBySelf {
        Some("AA34 signature error"@)
    } else if pm_out_of_time_range {
        Some("AA32 paymaster expired or not due"@)
    } else {
        None
    }
}

/// The coordinator. It owns the deposit ledger and the nonce ledger, and it
/// knows the account it is reached at.
pub struct EntryPoint {
    /// The deposit ledger.
    pub stake_manager: StakeManager,
    /// The nonce ledger.
    pub nonce_manager: NonceManager,
    /// The account of the coordinator itself.
    pub account_id: AccountId,
}

impl View for EntryPoint {
    type V = Ledgers;

    open spec fn view(&self) -> Ledgers {
        Ledgers { deposits: self.stake_manager@, nonces: self.nonce_manager@ }
    }
}

impl EntryPoint {
    /// A coordinator at `account_id`, with ledgers that have seen nothing yet.
    pub fn new(account_id: AccountId) -> (entry_point: Self)
        ensures
            entry_point.account_id == account_id,
            forall|account: AccountId| #[trigger]
                entry_point@.deposits[account] == crate::stake_manager::spec_empty_info(),
            forall|sender: AccountId, key: Seq<u8>| #[trigger]
                entry_point@.nonces[(sender, key)] == crate::nonce_manager::spec_first_nonce(key),
    {
        EntryPoint {
            stake_manager: StakeManager::new(),
            nonce_manager: NonceManager::new(),
            account_id,
        }
    }

    /// Pays the fees of a batch to the account the caller named. The zero
    /// account is refused before anything is sent; whether the transfer goes
    /// through is the host's to say.
    pub fn compensate<H: Host>(&self, host: &mut H, beneficiary: AccountId, amount: Balance) -> (done:
        Result<(), Error>)
        ensures
            all_zero(beneficiary@) ==> done == Err::<(), Error>(Error::InvalidBeneficiary),
            !all_zero(beneficiary@) ==> done is Ok || done == Err::<(), Error>(
                Error::FailedSendToBeneficiary,
            ),
    {
        if is_all_zero(beneficiary.as_slice()) {
            return Err(Error::InvalidBeneficiary);
        }
        match host.transfer(beneficiary, amount) {
            Ok(()) => Ok(()),
            Err(_) => Err(Error::FailedSendToBeneficiary),
        }
    }

    /// The price per gas an operation pays: the lower of its two ceilings.
    pub fn get_user_op_gas_price(&self, user_op: &UserOperation) -> (price: u64)
        ensures
            price == user_op@.gas_price(),
    {
        user_op.gas_price()
    }

    /// The prefund an operation needs, or `GasValuesOverflow` if it is beyond 64 bits.
    pub fn get_required_prefund(&self, user_op: &UserOperation) -> (prefund: Result<u64, Error>)
        ensures
            prefund == spec_required_prefund(user_op@),
    {
        let mul: u64 = if user_op.paymaster_and_data.is_eq_zero() {
            3
        } else {
            1
        };
        let verification = match user_op.verification_gas_limit.checked_mul(mul) {
            Some(gas) => gas,
            None => {
                return Err(Error::GasValuesOverflow);
            },
        };
        let with_call = match verification.checked_add(user_op.call_gas_limit) {
            Some(gas) => gas,
            None => {
                return Err(Error::GasValuesOverflow);
            },
        };
        let required_gas = match with_call.checked_add(user_op.pre_verification_gas) {
            Some(gas) => gas,
            None => {
                return Err(Error::GasValuesOverflow);
            },
        };
        match required_gas.checked_mul(user_op.max_fee_per_gas) {
            Some(prefund) => Ok(prefund),
            None => Err(Error::GasValuesOverflow),
        }
    }

    /// The identifier of an operation at this coordinator: its canonical
    /// hash, salted with the coordinator's own account.
    pub fn inner_get_user_op_hash(&self, user_op: &UserOperation) -> (hash: [u8; 32])
        ensures
            hash == spec_user_op_hash(user_op@, self.account_id),
    {
        let op_hash = user_op.hash();
        let own = scale_encode_array(&self.account_id);
        let mut bytes = scale_encode_array(&op_hash);
        append_bytes(&mut bytes, scale_encode_short_bytes(&own).as_slice());
        keccak256(bytes.as_slice())
    }

    /// The identifier of an operation at this coordinator.
    pub fn get_user_op_hash(&self, user_op: UserOperation) -> (hash: [u8; 32])
        ensures
            hash == spec_user_op_hash(user_op@, self.account_id),
    {
        self.inner_get_user_op_hash(&user_op)
    }

    /// Reads a validation answer at the instant `now`: the aggregator it
    /// claims, and whether `now` lies outside its window. The all-zero
    /// answer reads as a failed verification.
    pub fn get_validation_data(&self, validation_data: ValidationData, now: Timestamp) -> (claim: (
        Aggregator,
        bool,
    ))
        ensures
            claim == spec_validation_data(validation_data, now),
    {
        if validation_data.is_failure_sentinel() {
            return (Aggregator::FailedVerification, false);
        }
        let out_of_time_range = now > validation_data.valid_until || now
            < validation_data.valid_after;
        (validation_data.aggregator, out_of_time_range)
    }

    /// Checks what the sender and the sponsor answered for operation
    /// `op_index`: the sender must claim the aggregator that is expected,
    /// the sponsor none, and `now` must lie in both windows.
    pub fn validate_account_and_paymaster_validation_data(
        &self,
        op_index: u64,
        validation_data: ValidationData,
        paymaster_validation_data: ValidationData,
        expected_aggregator: Aggregator,
        now: Timestamp,
    ) -> (done: Result<(), Error>)
        ensures
            match spec_validation_fault(
                validation_data,
                paymaster_validation_data,
                expected_aggregator,
                now,
            ) {
                None => done is Ok,
                Some(reason) => is_rejection(done, op_index, reason),
            },
    {
        let (aggregator, out_of_time_range) = self.get_validation_data(validation_data, now);
        if !expected_aggregator.same(&aggregator) {
            return Err(rejected(op_index, "AA24 signature error"));
        }
        if out_of_time_range {
            return Err(rejected(op_index, "AA22 expired or not due"));
        }
        let (pm_aggregator, pm_out_of_time_range) = self.get_validation_data(
            paymaster_validation_data,
            now,
        );
        if !pm_aggregator.same(&Aggregator::VerifiedBySelf) {
            return Err(rejected(op_index, "AA34 signature error"));
        }
        if pm_out_of_time_range {
            return Err(rejected(op_index, "AA32 paymaster expired or not due"));
        }
        Ok(())
    }

    /// The row of `account` in the deposit ledger.
    pub fn get_deposit_info(&self, account: AccountId) -> (info: DepositInfo)
        ensures
            info == self@.deposits[account],
    {
        self.stake_manager.get_deposit_info(account)
    }

    /// The deposit of `account`.
    pub fn balance_of(&self, account: AccountId) -> (balance: Balance)
        ensures
            balance == self@.deposits[account].deposit,
    {
        self.stake_manager.balance_of(account)
    }

    /// The nonce that `sender` has to use next under `key`.
    pub fn get_nonce(&self, sender: AccountId, key: [u8; 24]) -> (nonce: [u8; 32])
        ensures
            nonce@ == self@.nonces[(sender, key@)],
    {
        self.nonce_manager.get_nonce(sender, key)
    }

    /// Steps the nonce of `caller` under `key` to the one that follows.
    pub fn increment_nonce(&mut self, caller: AccountId, key: [u8; 24])
        ensures
            final(self)@.deposits == old(self)@.deposits,
            final(self).account_id == old(self).account_id,
            final(self)@.nonces == old(self)@.nonces.insert(
                (caller, key@),
                crate::nonce_manager::spec_increment(old(self)@.nonces[(caller, key@)]),
            ),
    {
        self.nonce_manager.increment_nonce(caller, key);
    }
}

/// The coordinator is a deposit ledger: each call is its deposit ledger's,
/// with the result and the error the ledger gives, and leaves the nonces
/// and the coordinator's own address as they were.
impl IStakeManager for EntryPoint {
    open spec fn deposits(&self) -> Map<AccountId, DepositInfo> {
        self@.deposits
    }

    fn get_deposit_info(&self, account: AccountId) -> (info: DepositInfo) {
        self.stake_manager.get_deposit_info(account)
    }

    fn balance_of(&self, account: AccountId) -> (balance: Balance) {
        self.stake_manager.balance_of(account)
    }

    fn deposit_to(&mut self, account: AccountId, value: Balance) -> (done: Result<Deposited, Error>)
        ensures
            final(self).account_id == old(self).account_id,
            final(self)@.nonces == old(self)@.nonces,
    {
        self.stake_manager.deposit_to(account, value)
    }

    fn add_stake(&mut self, caller: AccountId, value: Balance, unstake_delay_sec: Timestamp) -> (done:
        Result<StakeLocked, Error>)
        ensures
            final(self).account_id == old(self).account_id,
            final(self)@.nonces == old(self)@.nonces,
    {
        self.stake_manager.add_stake(caller, value, unstake_delay_sec)
    }

    fn unlock_stake(&mut self, caller: AccountId, now: Timestamp) -> (done: Result<
        StakeUnlocked,
        Error,
    >)
        ensures
            final(self).account_id == old(self).account_id,
            final(self)@.nonces == old(self)@.nonces,
    {
        self.stake_manager.unlock_stake(caller, now)
    }

    fn withdraw_stake<H: Host>(
        &mut self,
        host: &mut H,
        caller: AccountId,
        now: Timestamp,
        withdraw_address: AccountId,
    ) -> (done: Result<StakeWithdrawn, Error>)
        ensures
            final(self).account_id == old(self).account_id,
            final(self)@.nonces == old(self)@.nonces,
    {
        self.stake_manager.withdraw_stake(host, caller, now, withdraw_address)
    }

    fn withdraw_to<H: Host>(
        &mut self,
        host: &mut H,
        caller: AccountId,
        withdraw_address: AccountId,
        withdraw_amount: Balance,
    ) -> (done: Result<Withdrawn, Error>)
        ensures
            final(self).account_id == old(self).account_id,
            final(self)@.nonces == old(self)@.nonces,
    {
        self.stake_manager.withdraw_to(host, caller, withdraw_address, withdraw_amount)
    }
}

} // verus!
