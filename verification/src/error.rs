//! The faults that ledger calls and the coordinator report.

use vstd::prelude::*;
use crate::env::{AccountId, Balance, Timestamp};

verus! {

/// A stake and the delay after which it can be withdrawn.
#[derive(Debug, Clone, Copy, PartialEq, Eq, Hash)]
pub struct StakeInfo {
    /// The amount staked.
    pub stake: Balance,
    /// The least time between unlocking the stake and withdrawing it.
    pub unstake_delay_sec: Timestamp,
}

/// Gas and validity window found while an operation was validated.
#[derive(Debug, Clone, PartialEq, Eq)]
pub struct ReturnInfo {
    /// Gas used by validation, pre-verification gas included.
    pub pre_op_gas: u64,
    /// The prefund the operation needs.
    pub prefund: u64,
    /// Whether the sender's or the sponsor's signature check failed.
    pub sig_failed: bool,
    /// First instant at which the operation is valid.
    pub valid_after: Timestamp,
    /// Last instant at which the operation is valid.
    pub valid_until: Timestamp,
    /// What the sponsor handed back for its post-operation hook.
    pub paymaster_context: Vec<u8>,
}

/// The aggregator an account asked for, with that aggregator's stake.
#[derive(Debug, Clone, Copy, PartialEq, Eq)]
pub struct AggregatorStakeInfo {
    /// The aggregator the account named.
    pub aggregator: AccountId,
    /// What that aggregator has staked.
    pub stake_info: StakeInfo,
}

/// The account whose address was asked for.
#[derive(Debug, Clone, Copy, PartialEq, Eq)]
pub struct SenderAddressResult {
    /// The account.
    pub sender: AccountId,
}

/// Every fault of the ledgers, the coordinator and its collaborators.
#[derive(Debug, Clone, PartialEq, Eq)]
pub enum Error {
    /// The caller is not the owner.
    NotOwner,
    /// The caller is not the coordinator.
    NotFromEntryPoint,
    /// The sponsor's deposit does not cover the prefund.
    PaymasterDepositTooLow,
    /// No sponsor is known under the account that was named.
    PaymasterNotFound,
    /// Validating the account used up the verification gas.
    TooLittleVerificationGas,
    /// The nonce is not the one the sender has to use next.
    InvalidAccountNonce,
    /// The operation names no sponsor.
    InvalidPaymasterAddress,
    /// Validation used more than the verification gas.
    OverVerificationGasLimit,
    /// A gas or fee value left the range of its type.
    GasValuesOverflow,
    /// The fees could not be sent to the beneficiary.
    FailedSendToBeneficiary,
    /// The beneficiary is the zero account.
    InvalidBeneficiary,
    /// No stake would be locked.
    NoStakeSpecified,
    /// The delay would be shorter than the one that holds.
    CannotDecreaseUnstakeTime,
    /// The delay is zero.
    MustSpecifyUnstakeDelay,
    /// The stake is unlocked already.
    AlreadyUnstaking,
    /// No stake was ever locked.
    NotStaked,
    /// The stake could not be sent out.
    FailedToWithdrawStake,
    /// The delay has not passed yet.
    StakeWithdrawalIsNotDue,
    /// The stake is still locked.
    MustCallUnlockStakeFirst,
    /// There is no stake.
    NoStakeToWithdraw,
    /// The amount could not be sent out.
    FailedToWithdraw,
    /// The amount is more than the deposit.
    WithdrawAmountTooLarge,
    /// A deposit or stake would leave the range of the balance type.
    DepositOverflow,
    /// Not enough balance to fulfil a request.
    InsufficientBalance,
    /// Not enough allowance to fulfil a request.
    InsufficientAllowance,
    /// Only the coordinator itself may make this call.
    OnlyInternalCall,
    /// The gas that is left does not cover an operation's limits.
    OutOfGas,
    /// A group of operations claims a failed verification.
    InvalidAggregator,
    /// One operation of a batch was rejected. The reason starts with a code
    /// `AAmn`, where `m` names the party at fault: 2 the account, 3 the
    /// sponsor, 5 the settlement.
    FailedOp { op_index: u64, reason: String },
    /// An aggregator could not verify the combined signature it was handed.
    SignatureValidationFailed { aggregator: AccountId },
    /// What a simulated validation found.
    ValidationResult {
        return_info: ReturnInfo,
        sender_info: StakeInfo,
        factory_info: StakeInfo,
        paymaster_info: StakeInfo,
    },
    /// What a simulated validation found for an account that names an aggregator.
    ValidationResultWithAggregation {
        return_info: ReturnInfo,
        sender_info: StakeInfo,
        factory_info: StakeInfo,
        paymaster_info: StakeInfo,
        aggregator_info: AggregatorStakeInfo,
    },
    /// The address a sender would be deployed at.
    SenderAddressResult { sender: AccountId },
    /// What a simulated execution found.
    ExecutionResult {
        pre_op_gas: Balance,
        paid: Balance,
        valid_after: Timestamp,
        valid_until: Timestamp,
        target_success: bool,
        target_result: Vec<u8>,
    },
}

/// An error as contracts see it: a rejected operation by its index and the
/// text of its reason, any other fault by itself.
pub enum ErrorView {
    FailedOp { op_index: u64, reason: Seq<char> },
    Other(Error),
}

impl View for Error {
    type V = ErrorView;

    open spec fn view(&self) -> ErrorView {
        match *self {
            Error::FailedOp { op_index, reason } => ErrorView::FailedOp { op_index, reason: reason@ },
            _ => ErrorView::Other(*self),
        }
    }
}

/// How `{:?}` renders an error.
pub uninterp spec fn error_debug_text(e: ErrorView) -> Seq<char>;

/// Renders an error with `format!("{:?}", ..)`, that is with the `Debug`
/// impl that `derive` wrote for `Error`. The text depends on what the error
/// holds alone.
#[verifier::external_body]
pub(crate) fn debug_text(e: &Error) -> (text: String)
    ensures
        text@ == error_debug_text(e@),
{
    format!("{:?}", e)
}

/// The decimal digits of `n`, most significant first.
pub open spec fn decimal_digits(n: nat) -> Seq<char>
    decreases n,
{
    if n < 10 {
        seq![digit_char(n)]
    } else {
        decimal_digits(n / 10).push(digit_char(n % 10))
    }
}

/// The character of one decimal digit.
pub open spec fn digit_char(d: nat) -> char {
    if d == 0 {
        '0'
    } else if d == 1 {
        '1'
    } else if d == 2 {
        '2'
    } else if d == 3 {
        '3'
    } else if d == 4 {
        '4'
    } else if d == 5 {
        '5'
    } else if d == 6 {
        '6'
    } else if d == 7 {
        '7'
    } else if d == 8 {
        '8'
    } else {
        '9'
    }
}

fn digit_text(d: u64) -> (text: &'static str)
    requires
        d < 10,
    ensures
        text@ == seq![digit_char(d as nat)],
{
    proof {
        reveal_strlit("0");
        reveal_strlit("1");
        reveal_strlit("2");
        reveal_strlit("3");
        reveal_strlit("4");
        reveal_strlit("5");
        reveal_strlit("6");
        reveal_strlit("7");
        reveal_strlit("8");
        reveal_strlit("9");
    }
    let text = if d == 0 {
        "0"
    } else if d == 1 {
        "1"
    } else if d == 2 {
        "2"
    } else if d == 3 {
        "3"
    } else if d == 4 {
        "4"
    } else if d == 5 {
        "5"
    } else if d == 6 {
        "6"
    } else if d == 7 {
        "7"
    } else if d == 8 {
        "8"
    } else {
        "9"
    };
    assert(text@ =~= seq![digit_char(d as nat)]);
    text
}

/// Appends the decimal digits of `n` to `text`.
pub fn append_decimal(text: &mut String, n: u64)
    ensures
        final(text)@ == old(text)@ + decimal_digits(n as nat),
    decreases n,
{
    if n >= 10 {
        append_decimal(text, n / 10);
    }
    text.append(digit_text(n % 10));
    assert(text@ =~= old(text)@ + decimal_digits(n as nat));
}

/// The reason of a rejected operation: a fixed code and what follows it.
pub open spec fn reason_text(code: Seq<char>, detail: Seq<char>) -> Seq<char> {
    code + detail
}

/// Whether `done` is the rejection of operation `op_index` for `reason`.
pub open spec fn is_rejection<T>(done: Result<T, Error>, op_index: u64, reason: Seq<char>) -> bool {
    done matches Err(e) && e@ == (ErrorView::FailedOp { op_index, reason })
}

/// Whether `e` is the rejection of operation `op_index`, for whatever reason.
pub open spec fn spec_rejects(e: Error, op_index: u64) -> bool {
    e matches Error::FailedOp { op_index: index, .. } && index == op_index
}

/// Whether `e` is a fault that validation can find in operation `op_index`.
pub open spec fn spec_is_validation_error(e: Error, op_index: u64) -> bool {
    ||| e == Error::GasValuesOverflow
    ||| e == Error::InvalidAccountNonce
    ||| e == Error::InvalidPaymasterAddress
    ||| e == Error::TooLittleVerificationGas
    ||| e == Error::PaymasterDepositTooLow
    ||| e == Error::OverVerificationGasLimit
    ||| spec_rejects(e, op_index)
}

/// Whether `e` is a fault that settlement can find in operation `op_index`.
pub open spec fn spec_is_settlement_error(e: Error, op_index: u64) -> bool {
    ||| e == Error::GasValuesOverflow
    ||| e == Error::DepositOverflow
    ||| spec_rejects(e, op_index)
}

/// Builds the error for operation `op_index`, rejected for `reason`.
pub fn rejected(op_index: u64, reason: &str) -> (e: Error)
    ensures
        e@ == (ErrorView::FailedOp { op_index, reason: reason@ }),
{
    Error::FailedOp { op_index, reason: String::from_str(reason) }
}

/// Builds the error for operation `op_index`, rejected for `code` followed by `detail`.
pub fn failed_op(op_index: u64, code: &str, detail: &str) -> (e: Error)
    ensures
        e@ == (ErrorView::FailedOp { op_index, reason: reason_text(code@, detail@) }),
{
    let mut reason = String::from_str(code);
    reason.append(detail);
    Error::FailedOp { op_index, reason }
}

} // verus!
