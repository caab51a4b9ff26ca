//! Validation of one operation: the sender is asked and charged, the nonce
//! is used, the sponsor is charged and asked. An operation is either
//! accepted, and then charged in full, or rejected, and then the ledgers
//! stand as they stood.

use vstd::prelude::*;
use crate::env::Balance;
use crate::entry_point::{gas_spent, pre_op_gas, spec_acceptable, Ledgers, spec_charge, spec_missing_account_funds, spec_prefund, spec_required_prefund, spec_user_op_hash, EntryPoint, UserOpInfo};
use crate::error::{debug_text, error_debug_text, failed_op, is_rejection, rejected, spec_is_validation_error, spec_rejects, Error, ErrorView};
use crate::helpers::ValidationData;
use crate::host::Host;
use crate::nonce_manager::{nonce_key, spec_increment, spec_nonce_key};
use crate::stake_manager::DepositInfo;
use crate::user_operation::{UserOperation, UserOperationView};

verus! {

/// The row of a deposit after `amount` was taken out of it.
pub open spec fn spec_debited(info: DepositInfo, amount: Balance) -> DepositInfo {
    DepositInfo { deposit: (info.deposit - amount) as Balance, ..info }
}

/// Whether the nonce of an operation is the one its sender has to use next.
pub open spec fn spec_nonce_is_due(ledgers: Ledgers, op: UserOperationView) -> bool {
    ledgers.nonces[(op.sender, spec_nonce_key(op.nonce@))] == op.nonce@
}

/// Whether validation can turn operation `op_index` away with `e` on these
/// ledgers. `e` is a fault that validation finds. A nonce that is not due
/// is told as `InvalidAccountNonce`, and a missing sponsor as
/// `InvalidPaymasterAddress`, unless the gas values overflowed or the
/// operation was rejected by then; and these two, and
/// `PaymasterDepositTooLow`, are told only where they hold.
pub open spec fn spec_validation_error_fits(
    ledgers: Ledgers,
    op: UserOperationView,
    e: Error,
    op_index: u64,
) -> bool {
    &&& spec_is_validation_error(e, op_index)
    &&& !spec_nonce_is_due(ledgers, op) ==> e == Error::InvalidAccountNonce || e
        == Error::GasValuesOverflow || spec_rejects(e, op_index)
    &&& op.paymaster_and_data.is_eq_zero() && spec_nonce_is_due(ledgers, op) ==> e
        == Error::InvalidPaymasterAddress || e == Error::GasValuesOverflow || spec_rejects(
        e,
        op_index,
    )
    &&& e == Error::InvalidAccountNonce ==> !spec_nonce_is_due(ledgers, op)
    &&& e == Error::InvalidPaymasterAddress ==> op.paymaster_and_data.is_eq_zero()
        && spec_nonce_is_due(ledgers, op)
    &&& e == Error::PaymasterDepositTooLow ==> ledgers.deposits[op.paymaster_and_data.paymaster()].deposit
        < spec_prefund(op) && !op.paymaster_and_data.is_eq_zero() && spec_nonce_is_due(
        ledgers,
        op,
    )
}

/// Whether `e` rejects operation `op_index` because its sender refused it,
/// for whatever cause.
pub open spec fn spec_sender_refused(e: Error, op_index: u64) -> bool {
    exists|cause: ErrorView|
        e@ == (ErrorView::FailedOp {
            op_index,
            reason: "AA23 reverted: "@ + #[trigger] error_debug_text(cause),
        })
}

/// Whether `e` rejects operation `op_index` because its sponsor refused
/// it, for whatever cause.
pub open spec fn spec_sponsor_refused(e: Error, op_index: u64) -> bool {
    exists|cause: ErrorView|
        e@ == (ErrorView::FailedOp {
            op_index,
            reason: "AA33 reverted: "@ + #[trigger] error_debug_text(cause),
        })
}

impl EntryPoint {
    /// What the deposit of the sender is short of the prefund; the sender is
    /// told so when it is asked. Zero for an operation with a sponsor.
    pub fn missing_account_funds(&self, user_op: &UserOperation, required_prefund: Balance) -> (missing:
        Balance)
        ensures
            missing == spec_missing_account_funds(
                user_op@,
                self@.deposits[user_op@.sender].deposit,
                required_prefund,
            ),
    {
        if user_op.paymaster_and_data.is_eq_zero() {
            let bal = self.balance_of(user_op.sender);
            if bal > required_prefund {
                0
            } else {
                required_prefund - bal
            }
        } else {
            0
        }
    }

    /// Acts on what the sender answered when it was asked to validate
    /// operation `op_index`. A refusal rejects the operation. If the
    /// operation has no sponsor, the sender's deposit must cover the prefund,
    /// and the prefund is taken from it.
    pub fn settle_account_validation(
        &mut self,
        op_index: u64,
        user_op: &UserOperation,
        required_prefund: Balance,
        answer: Result<ValidationData, Error>,
    ) -> (done: Result<ValidationData, Error>)
        ensures
            final(self).account_id == old(self).account_id,
            final(self)@.nonces == old(self)@.nonces,
            match answer {
                Err(cause) => final(self)@ == old(self)@ && is_rejection(
                    done,
                    op_index,
                    "AA23 reverted: "@ + error_debug_text(cause@),
                ),
                Ok(data) => if !user_op@.paymaster_and_data.is_eq_zero() {
                    final(self)@ == old(self)@ && done == Ok::<ValidationData, Error>(data)
                } else if required_prefund > old(self)@.deposits[user_op@.sender].deposit {
                    final(self)@ == old(self)@ && is_rejection(
                        done,
                        op_index,
                        "AA21 didn't pay prefund"@,
                    )
                } else {
                    final(self)@.deposits == old(self)@.deposits.insert(
                        user_op@.sender,
                        spec_debited(old(self)@.deposits[user_op@.sender], required_prefund),
                    ) && done == Ok::<ValidationData, Error>(data)
                },
            },
    {
        let validation_data = match answer {
            Ok(validation_data) => validation_data,
            Err(cause) => {
                let text = debug_text(&cause);
                return Err(failed_op(op_index, "AA23 reverted: ", text.as_str()));
            },
        };
        if user_op.paymaster_and_data.is_eq_zero() {
            let sender = user_op.sender;
            let sender_info = self.stake_manager.get_deposit_info(sender);
            if required_prefund > sender_info.deposit {
                return Err(rejected(op_index, "AA21 didn't pay prefund"));
            }
            match self.stake_manager.required_prefund(sender, required_prefund) {
                Ok(()) => {},
                Err(e) => {
                    return Err(e);
                },
            }
        }
        Ok(validation_data)
    }

    /// Asks the sender to validate operation `op_index` and, if the
    /// operation has no sponsor, takes the prefund from the sender's deposit.
    /// The sender is handed `user_op`; who the sender is and whether there
    /// is a sponsor is read from the copy of the operation in
    /// `out_op_info`. It answers with the gas this took and with what the
    /// sender answered. What the sender answers and what the gas meter reads
    /// is the host's to say; whenever the call fails, the ledgers stand as
    /// they stood. An operation is rejected only because its sender refused
    /// it or because it has no sponsor and the sender's deposit does not
    /// cover the prefund.
    pub fn validate_account_prepayment<H: Host>(
        &mut self,
        host: &mut H,
        op_index: u64,
        user_op: &UserOperation,
        out_op_info: &UserOpInfo,
        required_prefund: Balance,
    ) -> (done: Result<(u64, ValidationData), Error>)
        ensures
            final(self).account_id == old(self).account_id,
            final(self)@.nonces == old(self)@.nonces,
            match done {
                Err(e) => {
                    &&& final(self)@ == old(self)@
                    &&& e == Error::GasValuesOverflow || spec_rejects(e, op_index)
                    &&& spec_rejects(e, op_index) ==> spec_sender_refused(e, op_index) || (e@ == (
                    ErrorView::FailedOp { op_index, reason: "AA21 didn't pay prefund"@ })
                        && out_op_info@.user_op.paymaster_and_data.is_eq_zero()
                        && required_prefund
                        > old(self)@.deposits[out_op_info@.user_op.sender].deposit)
                },
                Ok(_) => if out_op_info@.user_op.paymaster_and_data.is_eq_zero() {
                    required_prefund <= old(self)@.deposits[out_op_info@.user_op.sender].deposit
                        && final(self)@.deposits == old(self)@.deposits.insert(
                        out_op_info@.user_op.sender,
                        spec_debited(
                            old(self)@.deposits[out_op_info@.user_op.sender],
                            required_prefund,
                        ),
                    )
                } else {
                    final(self)@ == old(self)@
                },
            },
    {
        let pre_gas = host.gas_left();
        let m_user_op = &out_op_info.user_op;
        let sender = m_user_op.sender;
        let saved = self.stake_manager.get_deposit_info(sender);
        let missing_account_funds = self.missing_account_funds(m_user_op, required_prefund);
        let answer = host.validate_user_op(user_op, out_op_info.user_op_hash, missing_account_funds);
        let validation_data = match self.settle_account_validation(
            op_index,
            m_user_op,
            required_prefund,
            answer,
        ) {
            Ok(validation_data) => validation_data,
            Err(e) => {
                proof {
                    if answer is Err {
                        let cause = answer->Err_0;
                        assert(e@ == (ErrorView::FailedOp {
                            op_index,
                            reason: "AA23 reverted: "@ + error_debug_text(cause@),
                        }));
                    }
                }
                return Err(e);
            },
        };
        let gas_used_by_validate_account_prepayment = match gas_spent(pre_gas, host.gas_left(), 0) {
            Ok(gas) => gas,
            Err(e) => {
                self.stake_manager.set_deposit_info(sender, saved);
                proof {
                    old(self).stake_manager.lemma_total();
                    assert(self@.deposits =~= old(self)@.deposits);
                }
                return Err(e);
            },
        };
        Ok((gas_used_by_validate_account_prepayment, validation_data))
    }

    /// Uses the nonce of an operation once its sender has validated it, and
    /// sees that it names a sponsor. `account_phase` is what the account
    /// phase answered: a failure is handed on. Else the nonce must be the
    /// one the sender has to use next, and the operation must name a
    /// sponsor; only then is the nonce stepped. Whenever the call fails,
    /// the ledgers stand as they stood.
    pub fn use_nonce(
        &mut self,
        user_op: &UserOperation,
        account_phase: Result<(u64, ValidationData), Error>,
    ) -> (done: Result<(u64, ValidationData), Error>)
        ensures
            final(self).account_id == old(self).account_id,
            final(self)@.deposits == old(self)@.deposits,
            match account_phase {
                Err(_) => done == account_phase && final(self)@ == old(self)@,
                Ok(validated) => if old(self)@.nonces[(
                    user_op@.sender,
                    spec_nonce_key(user_op@.nonce@),
                )] != user_op@.nonce@ {
                    done == Err::<(u64, ValidationData), Error>(Error::InvalidAccountNonce)
                        && final(self)@ == old(self)@
                } else if user_op@.paymaster_and_data.is_eq_zero() {
                    done == Err::<(u64, ValidationData), Error>(Error::InvalidPaymasterAddress)
                        && final(self)@ == old(self)@
                } else {
                    done == Ok::<(u64, ValidationData), Error>(validated) && final(self)@.nonces
                        == old(self)@.nonces.insert(
                        (user_op@.sender, spec_nonce_key(user_op@.nonce@)),
                        spec_increment(user_op@.nonce@),
                    )
                },
            },
    {
        let validated = match account_phase {
            Ok(validated) => validated,
            Err(e) => {
                return Err(e);
            },
        };
        if !self.nonce_manager.validate_and_update_nonce(user_op.sender, user_op.nonce) {
            return Err(Error::InvalidAccountNonce);
        }
        if user_op.paymaster_and_data.is_eq_zero() {
            self.nonce_manager.set_nonce(user_op.sender, nonce_key(&user_op.nonce), user_op.nonce);
            proof {
                old(self).nonce_manager.lemma_total();
                assert(self@.nonces =~= old(self)@.nonces);
            }
            return Err(Error::InvalidPaymasterAddress);
        }
        Ok(validated)
    }

    /// Takes the prefund of an operation from its sponsor's deposit. The
    /// verification gas must not be used up by then, and the deposit must cover the prefund.
    pub fn charge_paymaster(
        &mut self,
        user_op: &UserOperation,
        required_pre_fund: Balance,
        gas_used_by_validate_account_prepayment: u64,
    ) -> (done: Result<(), Error>)
        ensures
            final(self).account_id == old(self).account_id,
            final(self)@.nonces == old(self)@.nonces,
            if user_op@.verification_gas_limit <= gas_used_by_validate_account_prepayment {
                final(self)@ == old(self)@ && done == Err::<(), Error>(
                    Error::TooLittleVerificationGas,
                )
            } else if old(self)@.deposits[user_op@.paymaster_and_data.paymaster()].deposit
                < required_pre_fund {
                final(self)@ == old(self)@ && done == Err::<(), Error>(
                    Error::PaymasterDepositTooLow,
                )
            } else {
                done is Ok && final(self)@.deposits == old(self)@.deposits.insert(
                    user_op@.paymaster_and_data.paymaster(),
                    spec_debited(
                        old(self)@.deposits[user_op@.paymaster_and_data.paymaster()],
                        required_pre_fund,
                    ),
                )
            },
    {
        if user_op.verification_gas_limit <= gas_used_by_validate_account_prepayment {
            return Err(Error::TooLittleVerificationGas);
        }
        let paymaster = user_op.paymaster_and_data.paymaster();
        let paymaster_info = self.get_deposit_info(paymaster);
        if paymaster_info.deposit < required_pre_fund {
            return Err(Error::PaymasterDepositTooLow);
        }
        self.stake_manager.required_prefund(paymaster, required_pre_fund)
    }

    /// Reads what the sponsor answered when it was asked to validate
    /// operation `op_index`: its context and its answer, or, if it refused,
    /// the rejection of the operation.
    pub fn settle_paymaster_validation(
        &self,
        op_index: u64,
        answer: Result<(Vec<u8>, ValidationData), Error>,
    ) -> (done: Result<(Vec<u8>, ValidationData), Error>)
        ensures
            match answer {
                Ok(accepted) => done == Ok::<(Vec<u8>, ValidationData), Error>(accepted),
                Err(cause) => is_rejection(
                    done,
                    op_index,
                    "AA33 reverted: "@ + error_debug_text(cause@),
                ),
            },
    {
        match answer {
            Ok(accepted) => Ok(accepted),
            Err(cause) => {
                let text = debug_text(&cause);
                Err(failed_op(op_index, "AA33 reverted: ", text.as_str()))
            },
        }
    }

    /// Takes the prefund of operation `op_index` from its sponsor's deposit
    /// and asks the sponsor to validate the operation. The sponsor is handed
    /// `op`; who the sponsor is and how much verification gas there is is
    /// read from the copy of the operation in `op_info`. Verification gas
    /// that the account phase used up is told as `TooLittleVerificationGas`
    /// and, failing that, a deposit below the prefund as
    /// `PaymasterDepositTooLow`, in these cases only and before the sponsor
    /// is asked. Else the sponsor decides: the call answers with the
    /// sponsor's context and answer, the prefund taken, or rejects the
    /// operation because the sponsor refused. Whenever the call fails, the
    /// ledgers stand as they stood.
    pub fn validate_paymaster_prepayment<H: Host>(
        &mut self,
        host: &mut H,
        op_index: u64,
        op: &UserOperation,
        op_info: &UserOpInfo,
        required_pre_fund: Balance,
        gas_used_by_validate_account_prepayment: u64,
    ) -> (done: Result<(Vec<u8>, ValidationData), Error>)
        ensures
            final(self).account_id == old(self).account_id,
            final(self)@.nonces == old(self)@.nonces,
            if op_info@.user_op.verification_gas_limit <= gas_used_by_validate_account_prepayment {
                done == Err::<(Vec<u8>, ValidationData), Error>(Error::TooLittleVerificationGas)
                    && final(self)@ == old(self)@
            } else if old(self)@.deposits[op_info@.user_op.paymaster_and_data.paymaster()].deposit
                < required_pre_fund {
                done == Err::<(Vec<u8>, ValidationData), Error>(Error::PaymasterDepositTooLow)
                    && final(self)@ == old(self)@
            } else {
                match done {
                    Ok(_) => final(self)@.deposits == old(self)@.deposits.insert(
                        op_info@.user_op.paymaster_and_data.paymaster(),
                        spec_debited(
                            old(self)@.deposits[op_info@.user_op.paymaster_and_data.paymaster()],
                            required_pre_fund,
                        ),
                    ),
                    Err(e) => final(self)@ == old(self)@ && spec_rejects(e, op_index)
                        && spec_sponsor_refused(e, op_index),
                }
            },
    {
        let m_user_op = &op_info.user_op;
        let paymaster = m_user_op.paymaster_and_data.paymaster();
        let saved = self.get_deposit_info(paymaster);
        match self.charge_paymaster(
            m_user_op,
            required_pre_fund,
            gas_used_by_validate_account_prepayment,
        ) {
            Ok(()) => {},
            Err(e) => {
                return Err(e);
            },
        }
        let answer = host.validate_paymaster_user_op(op, op_info.user_op_hash, required_pre_fund);
        match self.settle_paymaster_validation(op_index, answer) {
            Ok(accepted) => Ok(accepted),
            Err(e) => {
                self.stake_manager.set_deposit_info(paymaster, saved);
                proof {
                    old(self).stake_manager.lemma_total();
                    assert(self@.deposits =~= old(self)@.deposits);
                    let cause = answer->Err_0;
                    assert(e@ == (ErrorView::FailedOp {
                        op_index,
                        reason: "AA33 reverted: "@ + error_debug_text(cause@),
                    }));
                }
                Err(e)
            },
        }
    }

    /// Validates operation `op_index`: works out its identifier and its
    /// prefund, has the sender validate it, uses its nonce as `use_nonce`
    /// says, and has its sponsor pay and validate it, all within the
    /// operation's verification gas. What sender, sponsor and gas meter
    /// answer is the host's to say. If the operation is accepted,
    /// `out_op_info` holds what its execution needs, the payer is charged
    /// the prefund and the nonce is used; if it is rejected, the ledgers
    /// stand as they stood. A nonce that is not due is told as
    /// `InvalidAccountNonce`, and a missing sponsor as
    /// `InvalidPaymasterAddress`, unless the account phase failed before.
    pub fn validate_prepayment<H: Host>(
        &mut self,
        host: &mut H,
        op_index: u64,
        user_op: &UserOperation,
        out_op_info: &mut UserOpInfo,
    ) -> (done: Result<(ValidationData, ValidationData), Error>)
        ensures
            final(self).account_id == old(self).account_id,
            spec_required_prefund(user_op@) is Err ==> done == Err::<
                (ValidationData, ValidationData),
                Error,
            >(Error::GasValuesOverflow),
            match done {
                Err(e) => final(self)@ == old(self)@ && spec_validation_error_fits(
                    old(self)@,
                    user_op@,
                    e,
                    op_index,
                ),
                Ok(_) => {
                    &&& final(self)@ == spec_charge(old(self)@, user_op@)
                    &&& spec_acceptable(old(self)@, user_op@)
                    &&& final(out_op_info)@.user_op == user_op@
                    &&& final(out_op_info)@.user_op_hash == spec_user_op_hash(
                        user_op@,
                        old(self).account_id,
                    )
                    &&& final(out_op_info)@.prefund == spec_prefund(user_op@)
                    &&& final(out_op_info)@.pre_op_gas >= user_op@.pre_verification_gas
                },
            },
    {
        let pre_gas = host.gas_left();
        out_op_info.user_op = user_op.clone();
        out_op_info.user_op_hash = self.inner_get_user_op_hash(user_op);
        let required_pre_fund = match self.get_required_prefund(user_op) {
            Ok(prefund) => prefund,
            Err(e) => {
                return Err(e);
            },
        };
        let sender = user_op.sender;
        let key = nonce_key(&user_op.nonce);
        let saved_sender = self.get_deposit_info(sender);
        let account_phase = self.validate_account_prepayment(
            host,
            op_index,
            user_op,
            out_op_info,
            required_pre_fund as Balance,
        );
        let (gas_used_by_validate_account_prepayment, validation_data) = match self.use_nonce(
            &out_op_info.user_op,
            account_phase,
        ) {
            Ok(validated) => validated,
            Err(e) => {
                self.stake_manager.set_deposit_info(sender, saved_sender);
                proof {
                    old(self).stake_manager.lemma_total();
                    assert(self@.deposits =~= old(self)@.deposits);
                }
                return Err(e);
            },
        };
        let paymaster = user_op.paymaster_and_data.paymaster();
        let saved_paymaster = self.get_deposit_info(paymaster);
        let (context, paymaster_validation_data) = match self.validate_paymaster_prepayment(
            host,
            op_index,
            user_op,
            out_op_info,
            required_pre_fund as Balance,
            gas_used_by_validate_account_prepayment,
        ) {
            Ok(validated) => validated,
            Err(e) => {
                self.nonce_manager.set_nonce(sender, key, user_op.nonce);
                proof {
                    old(self).nonce_manager.lemma_total();
                    assert(self@.nonces =~= old(self)@.nonces);
                }
                return Err(e);
            },
        };
        let gas_after_validation = host.gas_left();
        let gas_at_end = host.gas_left();
        let used = match pre_op_gas(user_op, pre_gas, gas_after_validation, gas_at_end) {
            Ok(gas) => gas,
            Err(e) => {
                self.stake_manager.set_deposit_info(paymaster, saved_paymaster);
                self.nonce_manager.set_nonce(sender, key, user_op.nonce);
                proof {
                    old(self).stake_manager.lemma_total();
                    old(self).nonce_manager.lemma_total();
                    assert(self@.deposits =~= old(self)@.deposits);
                    assert(self@.nonces =~= old(self)@.nonces);
                }
                return Err(e);
            },
        };
        out_op_info.prefund = required_pre_fund;
        out_op_info.context = context;
        out_op_info.pre_op_gas = used;
        Ok((validation_data, paymaster_validation_data))
    }
}

} // verus!
