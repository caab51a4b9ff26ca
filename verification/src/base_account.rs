//! A sender account that leaves the checks of signature and nonce to
//! another contract and answers to its coordinator only.

use vstd::prelude::*;
use crate::env::{account_eq, AccountId, Balance, Timestamp};
use crate::entry_point::EntryPoint;
use crate::error::Error;
use crate::helpers::ValidationData;
use crate::host::Host;
use crate::user_operation::UserOperation;

verus! {

/// The checks a `BaseAccount` leaves to the contract behind it.
pub trait BaseAccountTrait {
    /// Checks the signature of an operation at the instant `now`.
    fn validate_signature(&self, op: &UserOperation, user_op_hash: [u8; 32], now: Timestamp) -> Result<
        ValidationData,
        Error,
    >;

    /// Checks the nonce of an operation.
    fn validate_nonce(&self, nonce: [u8; 32]) -> Result<(), Error>;
}

/// A sender account.
#[derive(Debug, Clone, Copy, PartialEq, Eq)]
pub struct BaseAccount {
    entry_point: AccountId,
    advanced: AccountId,
}

impl BaseAccount {
    /// An account that answers to the coordinator `entry_point` and leaves
    /// its checks to the contract `advanced`.
    pub fn new(entry_point: AccountId, advanced: AccountId) -> (account: Self)
        ensures
            account.spec_entry_point() == entry_point,
            account.spec_advanced() == advanced,
    {
        BaseAccount { entry_point, advanced }
    }

    /// The coordinator the account answers to.
    pub closed spec fn spec_entry_point(&self) -> AccountId {
        self.entry_point
    }

    /// The contract the account leaves its checks to.
    pub closed spec fn spec_advanced(&self) -> AccountId {
        self.advanced
    }

    /// The coordinator the account answers to.
    pub fn entry_point(&self) -> (id: AccountId)
        ensures
            id == self.spec_entry_point(),
    {
        self.entry_point
    }

    /// The contract the account leaves its checks to.
    pub fn advanced(&self) -> (id: AccountId)
        ensures
            id == self.spec_advanced(),
    {
        self.advanced
    }

    /// The nonce the account, reached at `own`, has to use next under the all-zero key.
    pub fn get_nonce(&self, entry_point: &EntryPoint, own: AccountId) -> (nonce: [u8; 32])
        ensures
            nonce@ == entry_point@.nonces[(own, Seq::new(24, |i: int| 0u8))],
    {
        let key = [0u8; 24];
        assert(key@ =~= Seq::new(24, |i: int| 0u8));
        entry_point.get_nonce(own, key)
    }

    /// Sends the caller what the deposit is short of. Nothing is sent if
    /// nothing is missing, and a transfer that fails is let pass: to see that
    /// the prefund is there is the coordinator's part.
    pub fn pay_prefund<H: Host>(&self, host: &mut H, caller: AccountId, missing_account_funds: Balance) {
        if missing_account_funds != 0 {
            let _ = host.transfer(caller, missing_account_funds);
        }
    }

    /// Lets the coordinator pass, and nobody else.
    pub fn inner_require_from_entry_point(&self, caller: AccountId) -> (done: Result<(), Error>)
        ensures
            caller == self.spec_entry_point() ==> done is Ok,
            caller != self.spec_entry_point() ==> done == Err::<(), Error>(Error::NotFromEntryPoint),
    {
        if !account_eq(&caller, &self.entry_point) {
            return Err(Error::NotFromEntryPoint);
        }
        Ok(())
    }

    /// What the account answers once the contract behind it was asked: a
    /// signature that it refused is told, then a nonce that it refused;
    /// else what it answered for the signature stands.
    pub open spec fn spec_validation_answer(
        signature: Result<ValidationData, Error>,
        nonce: Result<(), Error>,
    ) -> Result<ValidationData, Error> {
        match signature {
            Err(e) => Err(e),
            Ok(data) => match nonce {
                Err(e) => Err(e),
                Ok(()) => Ok(data),
            },
        }
    }

    /// Puts the answers of the contract behind the account together; see
    /// `spec_validation_answer`.
    pub fn validation_answer(signature: Result<ValidationData, Error>, nonce: Result<(), Error>) -> (done:
        Result<ValidationData, Error>)
        ensures
            done == BaseAccount::spec_validation_answer(signature, nonce),
    {
        match signature {
            Err(e) => Err(e),
            Ok(data) => match nonce {
                Err(e) => Err(e),
                Ok(()) => Ok(data),
            },
        }
    }

    /// Validates an operation for the coordinator: has the contract behind
    /// the account check the signature and, if that holds, the nonce; what
    /// it answers is put together by `validation_answer`. An operation that
    /// passed has what the deposit is short of paid. A caller that is not
    /// the coordinator is turned away before anything is checked.
    pub fn validate_user_op<A: BaseAccountTrait, H: Host>(
        &self,
        advanced: &A,
        host: &mut H,
        caller: AccountId,
        user_op: &UserOperation,
        user_op_hash: [u8; 32],
        missing_account_funds: Balance,
    ) -> (done: Result<ValidationData, Error>)
        ensures
            caller != self.spec_entry_point() ==> done == Err::<ValidationData, Error>(
                Error::NotFromEntryPoint,
            ),
            done is Ok ==> caller == self.spec_entry_point(),
    {
        match self.inner_require_from_entry_point(caller) {
            Ok(()) => {},
            Err(e) => {
                return Err(e);
            },
        }
        let now = host.block_timestamp();
        let signature = advanced.validate_signature(user_op, user_op_hash, now);
        let nonce = if signature.is_ok() {
            advanced.validate_nonce(user_op.nonce)
        } else {
            Ok(())
        };
        match BaseAccount::validation_answer(signature, nonce) {
            Ok(validation_data) => {
                self.pay_prefund(host, caller, missing_account_funds);
                Ok(validation_data)
            },
            Err(e) => Err(e),
        }
    }
}

} // verus!
