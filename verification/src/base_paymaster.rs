//! A sponsor that leaves its policy to another contract, answers to its
//! coordinator only, and lets only its owner move its stake and deposit.

use vstd::prelude::*;
use crate::env::{account_eq, AccountId, Balance, Timestamp};
use crate::error::Error;
use crate::helpers::ValidationData;
use crate::host::{Host, PostOpMode};
use crate::stake_manager::{spec_add_stake, spec_credit, spec_unlock_stake, spec_withdraw_stake, spec_withdraw_time, spec_withdraw_to, spec_written, DepositInfo, Deposited, IStakeManager, StakeLocked, StakeUnlocked, StakeWithdrawn, Withdrawn};
use crate::user_operation::UserOperation;

verus! {

/// The policy a `BasePaymaster` leaves to the contract behind it.
pub trait BasePaymasterTrait {
    /// Decides whether to pay for an operation, up to `max_cost`.
    fn validate_paymaster_user_op(
        &self,
        user_op: &UserOperation,
        user_op_hash: [u8; 32],
        max_cost: Balance,
        now: Timestamp,
    ) -> Result<(Vec<u8>, ValidationData), Error>;

    /// Is told how an operation ended and what it cost.
    fn post_op(&self, mode: PostOpMode, context: &Vec<u8>, actual_gas_cost: Balance) -> Result<
        (),
        Error,
    >;
}

/// A sponsor.
#[derive(Debug, Clone, Copy, PartialEq, Eq)]
pub struct BasePaymaster {
    entry_point: AccountId,
    owner: AccountId,
    advance: AccountId,
}

impl BasePaymaster {
    /// A sponsor that answers to the coordinator `entry_point`, belongs to
    /// `owner` and leaves its policy to the contract `advance`.
    pub fn new(entry_point: AccountId, owner: AccountId, advance: AccountId) -> (paymaster: Self)
        ensures
            paymaster.spec_entry_point() == entry_point,
            paymaster.spec_owner() == owner,
            paymaster.spec_advance() == advance,
    {
        BasePaymaster { entry_point, owner, advance }
    }

    /// The coordinator the sponsor answers to.
    pub closed spec fn spec_entry_point(&self) -> AccountId {
        self.entry_point
    }

    /// The owner of the sponsor.
    pub closed spec fn spec_owner(&self) -> AccountId {
        self.owner
    }

    /// The contract the sponsor leaves its policy to.
    pub closed spec fn spec_advance(&self) -> AccountId {
        self.advance
    }

    /// The owner of the sponsor.
    pub fn get_owner(&self) -> (owner: AccountId)
        ensures
            owner == self.spec_owner(),
    {
        self.owner
    }

    /// The coordinator the sponsor answers to.
    pub fn entry_point(&self) -> (entry_point: AccountId)
        ensures
            entry_point == self.spec_entry_point(),
    {
        self.entry_point
    }

    /// The contract the sponsor leaves its policy to.
    pub fn advance(&self) -> (advance: AccountId)
        ensures
            advance == self.spec_advance(),
    {
        self.advance
    }

    /// Lets the coordinator pass, and nobody else.
    pub fn require_from_entry_point(&self, caller: AccountId) -> (done: Result<(), Error>)
        ensures
            caller == self.spec_entry_point() ==> done is Ok,
            caller != self.spec_entry_point() ==> done == Err::<(), Error>(Error::NotFromEntryPoint),
    {
        self.inner_require_from_entry_point(caller)
    }

    /// Lets the owner pass, and nobody else.
    pub fn only_owner(&self, caller: AccountId) -> (done: Result<(), Error>)
        ensures
            caller == self.spec_owner() ==> done is Ok,
            caller != self.spec_owner() ==> done == Err::<(), Error>(Error::NotOwner),
    {
        self.inner_only_owner(caller)
    }

    /// Lets the coordinator pass, and nobody else.
    pub fn inner_require_from_entry_point(&self, caller: AccountId) -> (done: Result<(), Error>)
        ensures
            caller == self.spec_entry_point() ==> done is Ok,
            caller != self.spec_entry_point() ==> done == Err::<(), Error>(Error::NotFromEntryPoint),
    {
        if !account_eq(&caller, &self.entry_point) {
            return Err(Error::NotFromEntryPoint);
        }
        Ok(())
    }

    /// Lets the owner pass, and nobody else.
    pub fn inner_only_owner(&self, caller: AccountId) -> (done: Result<(), Error>)
        ensures
            caller == self.spec_owner() ==> done is Ok,
            caller != self.spec_owner() ==> done == Err::<(), Error>(Error::NotOwner),
    {
        if !account_eq(&caller, &self.owner) {
            return Err(Error::NotOwner);
        }
        Ok(())
    }

    /// Decides for the coordinator whether to pay for an operation: passes
    /// the question on to the contract behind the sponsor. A caller that is
    /// not the coordinator is turned away before anything is asked.
    pub fn validate_paymaster_user_op<P: BasePaymasterTrait>(
        &self,
        advance: &P,
        caller: AccountId,
        user_op: &UserOperation,
        user_op_hash: [u8; 32],
        max_cost: Balance,
        now: Timestamp,
    ) -> (done: Result<(Vec<u8>, ValidationData), Error>)
        ensures
            caller != self.spec_entry_point() ==> done == Err::<(Vec<u8>, ValidationData), Error>(
                Error::NotFromEntryPoint,
            ),
            done is Ok ==> caller == self.spec_entry_point(),
    {
        match self.inner_require_from_entry_point(caller) {
            Ok(()) => {},
            Err(e) => {
                return Err(e);
            },
        }
        advance.validate_paymaster_user_op(user_op, user_op_hash, max_cost, now)
    }

    /// Is told by the coordinator how an operation ended: passes the news on
    /// to the contract behind the sponsor. A caller that is not the
    /// coordinator is turned away.
    pub fn post_op<P: BasePaymasterTrait>(
        &self,
        advance: &P,
        caller: AccountId,
        mode: PostOpMode,
        context: &Vec<u8>,
        actual_gas_cost: Balance,
    ) -> (done: Result<(), Error>)
        ensures
            caller != self.spec_entry_point() ==> done == Err::<(), Error>(Error::NotFromEntryPoint),
            done is Ok ==> caller == self.spec_entry_point(),
    {
        match self.inner_require_from_entry_point(caller) {
            Ok(()) => {},
            Err(e) => {
                return Err(e);
            },
        }
        advance.post_op(mode, context, actual_gas_cost)
    }

    /// The row of `account` in the deposit ledger.
    pub fn get_deposit_info<S: IStakeManager>(&self, stake_manager: &S, account: AccountId) -> (info:
        DepositInfo)
        ensures
            info == stake_manager.deposits()[account],
    {
        stake_manager.get_deposit_info(account)
    }

    /// The deposit of `account`.
    pub fn balance_of<S: IStakeManager>(&self, stake_manager: &S, account: AccountId) -> (balance:
        Balance)
        ensures
            balance == stake_manager.deposits()[account].deposit,
    {
        stake_manager.balance_of(account)
    }

    /// Credits `account` with `value`; anybody may.
    pub fn deposit_to<S: IStakeManager>(
        &self,
        stake_manager: &mut S,
        account: AccountId,
        value: Balance,
    ) -> (done: Result<Deposited, Error>)
        ensures
            final(stake_manager).deposits() == spec_written(
                old(stake_manager).deposits(),
                account,
                spec_credit(old(stake_manager).deposits()[account], value),
            ),
            match done {
                Ok(event) => spec_credit(old(stake_manager).deposits()[account], value) is Ok
                    && event == (Deposited {
                    account,
                    total_deposit: (old(stake_manager).deposits()[account].deposit + value) as Balance,
                }),
                Err(e) => spec_credit(old(stake_manager).deposits()[account], value) == Err::<
                    DepositInfo,
                    Error,
                >(e),
            },
    {
        stake_manager.deposit_to(account, value)
    }

    /// Locks `value` as stake of the sponsor, which is reached at `own`. Only the owner may.
    pub fn add_stake<S: IStakeManager>(
        &self,
        stake_manager: &mut S,
        own: AccountId,
        caller: AccountId,
        value: Balance,
        unstake_delay_sec: Timestamp,
    ) -> (done: Result<StakeLocked, Error>)
        ensures
            caller != self.spec_owner() ==> done == Err::<StakeLocked, Error>(Error::NotOwner)
                && final(stake_manager).deposits() == old(stake_manager).deposits(),
            caller == self.spec_owner() ==> final(stake_manager).deposits() == spec_written(
                old(stake_manager).deposits(),
                own,
                spec_add_stake(old(stake_manager).deposits()[own], value, unstake_delay_sec),
            ),
            caller == self.spec_owner() ==> (match done {
                Ok(event) => spec_add_stake(
                    old(stake_manager).deposits()[own],
                    value,
                    unstake_delay_sec,
                ) is Ok && event == (StakeLocked {
                    account: own,
                    total_staked: (old(stake_manager).deposits()[own].stake + value) as Balance,
                    unstake_delay_sec,
                }),
                Err(e) => spec_add_stake(
                    old(stake_manager).deposits()[own],
                    value,
                    unstake_delay_sec,
                ) == Err::<DepositInfo, Error>(e),
            }),
    {
        match self.inner_only_owner(caller) {
            Ok(()) => {},
            Err(e) => {
                return Err(e);
            },
        }
        stake_manager.add_stake(own, value, unstake_delay_sec)
    }

    /// Unlocks the stake of the sponsor, which is reached at `own`. Only the owner may.
    pub fn unlock_stake<S: IStakeManager>(
        &self,
        stake_manager: &mut S,
        own: AccountId,
        caller: AccountId,
        now: Timestamp,
    ) -> (done: Result<StakeUnlocked, Error>)
        ensures
            caller != self.spec_owner() ==> done == Err::<StakeUnlocked, Error>(Error::NotOwner)
                && final(stake_manager).deposits() == old(stake_manager).deposits(),
            caller == self.spec_owner() ==> final(stake_manager).deposits() == spec_written(
                old(stake_manager).deposits(),
                own,
                spec_unlock_stake(old(stake_manager).deposits()[own], now),
            ),
            caller == self.spec_owner() ==> (match done {
                Ok(event) => spec_unlock_stake(old(stake_manager).deposits()[own], now) is Ok
                    && event == (StakeUnlocked {
                    account: own,
                    withdraw_time: spec_withdraw_time(
                        now,
                        old(stake_manager).deposits()[own].unstake_delay_sec,
                    ),
                }),
                Err(e) => spec_unlock_stake(old(stake_manager).deposits()[own], now) == Err::<
                    DepositInfo,
                    Error,
                >(e),
            }),
    {
        match self.inner_only_owner(caller) {
            Ok(()) => {},
            Err(e) => {
                return Err(e);
            },
        }
        stake_manager.unlock_stake(own, now)
    }

    /// Pays the stake of the sponsor, which is reached at `own`, out to
    /// `withdraw_address`. Only the owner may; for the owner the ledger
    /// answers, and its answer is handed on.
    pub fn withdraw_stake<S: IStakeManager, H: Host>(
        &self,
        stake_manager: &mut S,
        host: &mut H,
        own: AccountId,
        caller: AccountId,
        now: Timestamp,
        withdraw_address: AccountId,
    ) -> (done: Result<StakeWithdrawn, Error>)
        ensures
            caller != self.spec_owner() ==> done == Err::<StakeWithdrawn, Error>(Error::NotOwner)
                && final(stake_manager).deposits() == old(stake_manager).deposits(),
            caller == self.spec_owner() ==> final(stake_manager).deposits() == spec_written(
                old(stake_manager).deposits(),
                own,
                spec_withdraw_stake(old(stake_manager).deposits()[own], now, done is Ok),
            ),
            caller == self.spec_owner() ==> (match done {
                Ok(event) => spec_withdraw_stake(old(stake_manager).deposits()[own], now, true)
                    is Ok && event == (StakeWithdrawn {
                    account: own,
                    withdraw_address,
                    amount: old(stake_manager).deposits()[own].stake,
                }),
                Err(e) => spec_withdraw_stake(old(stake_manager).deposits()[own], now, false)
                    == Err::<DepositInfo, Error>(e),
            }),
    {
        match self.inner_only_owner(caller) {
            Ok(()) => {},
            Err(e) => {
                return Err(e);
            },
        }
        stake_manager.withdraw_stake(host, own, now, withdraw_address)
    }

    /// Pays `withdraw_amount` of the deposit of the sponsor, which is
    /// reached at `own`, out to `withdraw_address`. Only the owner may; for
    /// the owner the ledger answers, and its answer is handed on.
    pub fn withdraw_to<S: IStakeManager, H: Host>(
        &self,
        stake_manager: &mut S,
        host: &mut H,
        own: AccountId,
        caller: AccountId,
        withdraw_address: AccountId,
        withdraw_amount: Balance,
    ) -> (done: Result<Withdrawn, Error>)
        ensures
            caller != self.spec_owner() ==> done == Err::<Withdrawn, Error>(Error::NotOwner)
                && final(stake_manager).deposits() == old(stake_manager).deposits(),
            caller == self.spec_owner() ==> final(stake_manager).deposits() == spec_written(
                old(stake_manager).deposits(),
                own,
                spec_withdraw_to(old(stake_manager).deposits()[own], withdraw_amount, done is Ok),
            ),
            caller == self.spec_owner() ==> (match done {
                Ok(event) => spec_withdraw_to(
                    old(stake_manager).deposits()[own],
                    withdraw_amount,
                    true,
                ) is Ok && event == (Withdrawn {
                    account: own,
                    withdraw_address,
                    amount: withdraw_amount,
                }),
                Err(e) => spec_withdraw_to(
                    old(stake_manager).deposits()[own],
                    withdraw_amount,
                    false,
                ) == Err::<DepositInfo, Error>(e),
            }),
    {
        match self.inner_only_owner(caller) {
            Ok(()) => {},
            Err(e) => {
                return Err(e);
            },
        }
        stake_manager.withdraw_to(host, own, withdraw_address, withdraw_amount)
    }
}

} // verus!
