//! The deposit ledger: for each account, the deposit it pays gas from and the
//! stake it has locked.

use vstd::prelude::*;
use crate::env::{account_eq, AccountId, Balance, Timestamp};
use crate::error::Error;
use crate::host::Host;

verus! {

/// The ledger's row of one account.
#[derive(Debug, Clone, Copy, PartialEq, Eq, Hash)]
pub struct DepositInfo {
    /// What the account can spend on gas.
    pub deposit: Balance,
    /// Whether the stake is locked.
    pub staked: bool,
    /// The stake of the account.
    pub stake: Balance,
    /// The least time between unlocking the stake and withdrawing it.
    pub unstake_delay_sec: Timestamp,
    /// From when on the stake can be withdrawn; zero while it is not unlocked.
    pub withdraw_time: Timestamp,
}

/// The row of an account that the ledger has not seen.
pub open spec fn spec_empty_info() -> DepositInfo {
    DepositInfo { deposit: 0, staked: false, stake: 0, unstake_delay_sec: 0, withdraw_time: 0 }
}

impl Default for DepositInfo {
    fn default() -> (info: Self)
        ensures
            info == spec_empty_info(),
    {
        DepositInfo { deposit: 0, staked: false, stake: 0, unstake_delay_sec: 0, withdraw_time: 0 }
    }
}

/// Told when a deposit was made.
#[derive(Debug, Clone, Copy, PartialEq, Eq)]
pub struct Deposited {
    /// The account that was credited.
    pub account: AccountId,
    /// Its deposit after the credit.
    pub total_deposit: Balance,
}

/// Told when part of a deposit was withdrawn.
#[derive(Debug, Clone, Copy, PartialEq, Eq)]
pub struct Withdrawn {
    /// The account that withdrew.
    pub account: AccountId,
    /// Where the amount went.
    pub withdraw_address: AccountId,
    /// The amount.
    pub amount: Balance,
}

/// Told when a stake was locked.
#[derive(Debug, Clone, Copy, PartialEq, Eq)]
pub struct StakeLocked {
    /// The account that staked.
    pub account: AccountId,
    /// Its stake after the call.
    pub total_staked: Balance,
    /// The delay it has to wait after unlocking.
    pub unstake_delay_sec: Timestamp,
}

/// Told when a stake was unlocked.
#[derive(Debug, Clone, Copy, PartialEq, Eq)]
pub struct StakeUnlocked {
    /// The account that unlocked its stake.
    pub account: AccountId,
    /// From when on the stake can be withdrawn.
    pub withdraw_time: Timestamp,
}

/// Told when a stake was withdrawn.
#[derive(Debug, Clone, Copy, PartialEq, Eq)]
pub struct StakeWithdrawn {
    /// The account that withdrew its stake.
    pub account: AccountId,
    /// Where the stake went.
    pub withdraw_address: AccountId,
    /// The stake.
    pub amount: Balance,
}

/// Takes `amount` out of a deposit, unless the deposit is smaller.
pub open spec fn spec_debit(info: DepositInfo, amount: Balance) -> Result<DepositInfo, Error> {
    if amount > info.deposit {
        Err(Error::WithdrawAmountTooLarge)
    } else {
        Ok(DepositInfo { deposit: (info.deposit - amount) as Balance, ..info })
    }
}

/// Adds `amount` to a deposit, unless the sum is beyond the balance type.
pub open spec fn spec_credit(info: DepositInfo, amount: Balance) -> Result<DepositInfo, Error> {
    if info.deposit + amount > Balance::MAX {
        Err(Error::DepositOverflow)
    } else {
        Ok(DepositInfo { deposit: (info.deposit + amount) as Balance, ..info })
    }
}

/// Locks `value` more as stake, with the delay `unstake_delay_sec`.
pub open spec fn spec_add_stake(
    info: DepositInfo,
    value: Balance,
    unstake_delay_sec: Timestamp,
) -> Result<DepositInfo, Error> {
    if unstake_delay_sec == 0 {
        Err(Error::MustSpecifyUnstakeDelay)
    } else if unstake_delay_sec < info.unstake_delay_sec {
        Err(Error::CannotDecreaseUnstakeTime)
    } else if info.stake + value > Balance::MAX {
        Err(Error::DepositOverflow)
    } else if info.stake + value == 0 {
        Err(Error::NoStakeSpecified)
    } else {
        Ok(
            DepositInfo {
                deposit: info.deposit,
                staked: true,
                stake: (info.stake + value) as Balance,
                unstake_delay_sec,
                withdraw_time: 0,
            },
        )
    }
}

/// The instant `delay` after `now`, or the last instant there is.
pub open spec fn spec_withdraw_time(now: Timestamp, delay: Timestamp) -> Timestamp {
    if now + delay > Timestamp::MAX {
        Timestamp::MAX
    } else {
        (now + delay) as Timestamp
    }
}

/// Unlocks a stake at the instant `now`.
pub open spec fn spec_unlock_stake(info: DepositInfo, now: Timestamp) -> Result<DepositInfo, Error> {
    if info.unstake_delay_sec == 0 {
        Err(Error::NotStaked)
    } else if !info.staked {
        Err(Error::AlreadyUnstaking)
    } else {
        Ok(
            DepositInfo {
                staked: false,
                withdraw_time: spec_withdraw_time(now, info.unstake_delay_sec),
                ..info
            },
        )
    }
}

/// The stake that can be withdrawn at the instant `now`.
pub open spec fn spec_check_withdraw_stake(info: DepositInfo, now: Timestamp) -> Result<
    Balance,
    Error,
> {
    if info.stake == 0 {
        Err(Error::NoStakeToWithdraw)
    } else if info.withdraw_time == 0 {
        Err(Error::MustCallUnlockStakeFirst)
    } else if info.withdraw_time > now {
        Err(Error::StakeWithdrawalIsNotDue)
    } else {
        Ok(info.stake)
    }
}

/// Withdraws a stake at the instant `now`, given whether the transfer of the stake went through.
pub open spec fn spec_withdraw_stake(info: DepositInfo, now: Timestamp, transferred: bool) -> Result<
    DepositInfo,
    Error,
> {
    match spec_check_withdraw_stake(info, now) {
        Err(e) => Err(e),
        Ok(_) => if transferred {
            Ok(DepositInfo { unstake_delay_sec: 0, withdraw_time: 0, stake: 0, ..info })
        } else {
            Err(Error::FailedToWithdrawStake)
        },
    }
}

/// Withdraws `amount` of a deposit, given whether the transfer of the amount went through.
pub open spec fn spec_withdraw_to(info: DepositInfo, amount: Balance, transferred: bool) -> Result<
    DepositInfo,
    Error,
> {
    match spec_debit(info, amount) {
        Err(e) => Err(e),
        Ok(row) => if transferred {
            Ok(row)
        } else {
            Err(Error::FailedToWithdraw)
        },
    }
}

/// What a call on the row of `account` makes of the ledger: the new row in
/// its place if the call succeeded, the ledger as it was if it failed.
pub open spec fn spec_written(
    ledger: Map<AccountId, DepositInfo>,
    account: AccountId,
    outcome: Result<DepositInfo, Error>,
) -> Map<AccountId, DepositInfo> {
    match outcome {
        Ok(row) => ledger.insert(account, row),
        Err(_) => ledger,
    }
}

/// One row of the ledger.
struct DepositEntry {
    account: AccountId,
    info: DepositInfo,
}

/// The row that holds for `account`, from row `from` on: the first that names it.
spec fn spec_lookup(entries: Seq<DepositEntry>, from: int, account: AccountId) -> DepositInfo
    decreases entries.len() - from,
{
    if from < 0 || from >= entries.len() {
        spec_empty_info()
    } else if entries[from].account == account {
        entries[from].info
    } else {
        spec_lookup(entries, from + 1, account)
    }
}

proof fn lemma_lookup_after_set(
    before: Seq<DepositEntry>,
    after: Seq<DepositEntry>,
    at: int,
    from: int,
    account: AccountId,
)
    requires
        0 <= at < before.len(),
        0 <= from <= before.len(),
        after.len() == before.len(),
        after[at].account == before[at].account,
        forall|j: int| 0 <= j < before.len() && j != at ==> after[j] == before[j],
        forall|j: int| 0 <= j < at ==> before[j].account != before[at].account,
    ensures
        account == before[at].account && from <= at ==> spec_lookup(after, from, account)
            == after[at].info,
        account != before[at].account ==> spec_lookup(after, from, account) == spec_lookup(
            before,
            from,
            account,
        ),
    decreases before.len() - from,
{
    if from < before.len() {
        lemma_lookup_after_set(before, after, at, from + 1, account);
    }
}

proof fn lemma_lookup_after_push(
    before: Seq<DepositEntry>,
    after: Seq<DepositEntry>,
    from: int,
    account: AccountId,
)
    requires
        0 <= from <= before.len(),
        after.len() == before.len() + 1,
        forall|j: int| 0 <= j < before.len() ==> after[j] == before[j],
        forall|j: int| 0 <= j < before.len() ==> before[j].account != after.last().account,
    ensures
        spec_lookup(after, from, account) == if account == after.last().account {
            after.last().info
        } else {
            spec_lookup(before, from, account)
        },
    decreases before.len() - from,
{
    if from < before.len() {
        lemma_lookup_after_push(before, after, from + 1, account);
    } else {
        assert(spec_lookup(after, from + 1, account) == spec_empty_info());
    }
}

/// The deposit ledger. It holds a row for every account; the row of an
/// account it has not seen is all zero.
pub struct StakeManager {
    deposits: Vec<DepositEntry>,
}

impl View for StakeManager {
    type V = Map<AccountId, DepositInfo>;

    /// For each account, its row.
    closed spec fn view(&self) -> Map<AccountId, DepositInfo> {
        Map::total(|account: AccountId| spec_lookup(self.deposits@, 0, account))
    }
}

impl StakeManager {
    /// A ledger in which every account has the all-zero row.
    pub fn new() -> (ledger: Self)
        ensures
            forall|account: AccountId| #[trigger] ledger@[account] == spec_empty_info(),
            ledger@.dom() == Set::<AccountId>::full(),
    {
        StakeManager { deposits: Vec::new() }
    }

    /// Every account has a row.
    pub proof fn lemma_total(&self)
        ensures
            self@.dom() == Set::<AccountId>::full(),
    {
    }

    /// The row of `account`, if the ledger stores one.
    fn find(&self, account: &AccountId) -> (at: Option<usize>)
        ensures
            match at {
                Some(i) => i < self.deposits@.len() && self.deposits@[i as int].account == *account
                    && self@[*account] == self.deposits@[i as int].info && forall|j: int|
                    0 <= j < i ==> self.deposits@[j].account != *account,
                None => self@[*account] == spec_empty_info() && forall|j: int|
                    0 <= j < self.deposits@.len() ==> self.deposits@[j].account != *account,
            },
    {
        let mut i: usize = 0;
        while i < self.deposits.len()
            invariant
                i <= self.deposits@.len(),
                spec_lookup(self.deposits@, 0, *account) == spec_lookup(
                    self.deposits@,
                    i as int,
                    *account,
                ),
                forall|j: int| 0 <= j < i ==> self.deposits@[j].account != *account,
            decreases self.deposits@.len() - i,
        {
            if account_eq(&self.deposits[i].account, account) {
                return Some(i);
            }
            i += 1;
        }
        None
    }

    /// Writes `info` as the row of `account`, whatever the row was: the way
    /// a row that is kept elsewhere comes into the ledger.
    pub fn set_deposit_info(&mut self, account: AccountId, info: DepositInfo)
        ensures
            final(self)@ == old(self)@.insert(account, info),
    {
        let found = self.find(&account);
        match found {
            Some(i) => {
                self.deposits[i].info = info;
                assert forall|other: AccountId| #[trigger]
                    self@[other] == old(self)@.insert(account, info)[other] by {
                    lemma_lookup_after_set(old(self).deposits@, self.deposits@, i as int, 0, other);
                }
            },
            None => {
                self.deposits.push(DepositEntry { account, info });
                assert forall|other: AccountId| #[trigger]
                    self@[other] == old(self)@.insert(account, info)[other] by {
                    lemma_lookup_after_push(old(self).deposits@, self.deposits@, 0, other);
                }
            },
        }
        assert(self@ =~= old(self)@.insert(account, info));
    }

    /// A copy of the ledger.
    pub fn snapshot(&self) -> (copy: Self)
        ensures
            copy@ == self@,
    {
        let mut deposits: Vec<DepositEntry> = Vec::new();
        let mut i: usize = 0;
        while i < self.deposits.len()
            invariant
                i <= self.deposits@.len(),
                deposits@ == self.deposits@.subrange(0, i as int),
            decreases self.deposits@.len() - i,
        {
            let entry = &self.deposits[i];
            deposits.push(DepositEntry { account: entry.account, info: entry.info });
            i += 1;
            assert(deposits@ =~= self.deposits@.subrange(0, i as int));
        }
        assert(deposits@ =~= self.deposits@);
        StakeManager { deposits }
    }

    /// The row of `account`.
    pub fn get_deposit_info(&self, account: AccountId) -> (info: DepositInfo)
        ensures
            info == self@[account],
    {
        match self.find(&account) {
            Some(i) => self.deposits[i].info,
            None => DepositInfo::default(),
        }
    }

    /// The deposit of `account`.
    pub fn balance_of(&self, account: AccountId) -> (balance: Balance)
        ensures
            balance == self@[account].deposit,
    {
        self.get_deposit_info(account).deposit
    }

    /// Takes the prefund of an operation out of the deposit of
    /// `required_address`. A deposit that is smaller stays as it is.
    pub fn required_prefund(&mut self, required_address: AccountId, required_amount: Balance) -> (done:
        Result<(), Error>)
        ensures
            final(self)@ == spec_written(
                old(self)@,
                required_address,
                spec_debit(old(self)@[required_address], required_amount),
            ),
            match done {
                Ok(()) => spec_debit(old(self)@[required_address], required_amount) is Ok,
                Err(e) => spec_debit(old(self)@[required_address], required_amount) == Err::<
                    DepositInfo,
                    Error,
                >(e),
            },
    {
        let info = self.get_deposit_info(required_address);
        if required_amount > info.deposit {
            return Err(Error::WithdrawAmountTooLarge);
        }
        let deposit = info.deposit - required_amount;
        self.set_deposit_info(required_address, DepositInfo { deposit, ..info });
        Ok(())
    }

    /// Adds `amount` to the deposit of `account`, unless the sum is beyond
    /// the balance type: then the deposit stays as it is.
    pub fn increment_deposit(&mut self, account: AccountId, amount: Balance) -> (done: Result<
        (),
        Error,
    >)
        ensures
            final(self)@ == spec_written(
                old(self)@,
                account,
                spec_credit(old(self)@[account], amount),
            ),
            match done {
                Ok(()) => spec_credit(old(self)@[account], amount) is Ok,
                Err(e) => spec_credit(old(self)@[account], amount) == Err::<DepositInfo, Error>(e),
            },
    {
        let mut info = self.get_deposit_info(account);
        let new_amount = match info.deposit.checked_add(amount) {
            Some(sum) => sum,
            None => {
                return Err(Error::DepositOverflow);
            },
        };
        info.deposit = new_amount;
        self.set_deposit_info(account, info);
        Ok(())
    }

    /// Credits `account` with `value`, the amount that came with the call.
    pub fn deposit_to(&mut self, account: AccountId, value: Balance) -> (done: Result<
        Deposited,
        Error,
    >)
        ensures
            final(self)@ == spec_written(old(self)@, account, spec_credit(old(self)@[account], value)),
            match done {
                Ok(event) => spec_credit(old(self)@[account], value) is Ok && event == (Deposited {
                    account,
                    total_deposit: (old(self)@[account].deposit + value) as Balance,
                }),
                Err(e) => spec_credit(old(self)@[account], value) == Err::<DepositInfo, Error>(e),
            },
    {
        match self.increment_deposit(account, value) {
            Ok(()) => {},
            Err(e) => {
                return Err(e);
            },
        }
        let info = self.get_deposit_info(account);
        Ok(Deposited { account, total_deposit: info.deposit })
    }

    /// Locks `value`, the amount that came with the call, as stake of
    /// `caller`, to be withdrawn no sooner than `unstake_delay_sec` after it
    /// is unlocked. A withdrawal that was pending is called off.
    pub fn add_stake(&mut self, caller: AccountId, value: Balance, unstake_delay_sec: Timestamp) -> (done:
        Result<StakeLocked, Error>)
        ensures
            final(self)@ == spec_written(
                old(self)@,
                caller,
                spec_add_stake(old(self)@[caller], value, unstake_delay_sec),
            ),
            match done {
                Ok(event) => spec_add_stake(old(self)@[caller], value, unstake_delay_sec) is Ok
                    && event == (StakeLocked {
                    account: caller,
                    total_staked: (old(self)@[caller].stake + value) as Balance,
                    unstake_delay_sec,
                }),
                Err(e) => spec_add_stake(old(self)@[caller], value, unstake_delay_sec) == Err::<
                    DepositInfo,
                    Error,
                >(e),
            },
    {
        let info = self.get_deposit_info(caller);
        if unstake_delay_sec == 0 {
            return Err(Error::MustSpecifyUnstakeDelay);
        }
        if unstake_delay_sec < info.unstake_delay_sec {
            return Err(Error::CannotDecreaseUnstakeTime);
        }
        let stake = match info.stake.checked_add(value) {
            Some(sum) => sum,
            None => {
                return Err(Error::DepositOverflow);
            },
        };
        if stake == 0 {
            return Err(Error::NoStakeSpecified);
        }
        self.set_deposit_info(
            caller,
            DepositInfo {
                deposit: info.deposit,
                staked: true,
                stake,
                unstake_delay_sec,
                withdraw_time: 0,
            },
        );
        Ok(StakeLocked { account: caller, total_staked: stake, unstake_delay_sec })
    }

    /// Unlocks the stake of `caller` at the instant `now`. The stake can be
    /// withdrawn once the delay has passed.
    pub fn unlock_stake(&mut self, caller: AccountId, now: Timestamp) -> (done: Result<
        StakeUnlocked,
        Error,
    >)
        ensures
            final(self)@ == spec_written(
                old(self)@,
                caller,
                spec_unlock_stake(old(self)@[caller], now),
            ),
            match done {
                Ok(event) => spec_unlock_stake(old(self)@[caller], now) is Ok && event == (
                StakeUnlocked {
                    account: caller,
                    withdraw_time: spec_withdraw_time(now, old(self)@[caller].unstake_delay_sec),
                }),
                Err(e) => spec_unlock_stake(old(self)@[caller], now) == Err::<DepositInfo, Error>(e),
            },
    {
        let info = self.get_deposit_info(caller);
        if info.unstake_delay_sec == 0 {
            return Err(Error::NotStaked);
        }
        if !info.staked {
            return Err(Error::AlreadyUnstaking);
        }
        let withdraw_time = match now.checked_add(info.unstake_delay_sec) {
            Some(time) => time,
            None => Timestamp::MAX,
        };
        self.set_deposit_info(caller, DepositInfo { staked: false, withdraw_time, ..info });
        Ok(StakeUnlocked { account: caller, withdraw_time })
    }

    /// The stake that `caller` can withdraw at the instant `now`.
    pub fn check_withdraw_stake(&self, caller: AccountId, now: Timestamp) -> (stake: Result<
        Balance,
        Error,
    >)
        ensures
            stake == spec_check_withdraw_stake(self@[caller], now),
    {
        let info = self.get_deposit_info(caller);
        if info.stake == 0 {
            return Err(Error::NoStakeToWithdraw);
        }
        if info.withdraw_time == 0 {
            return Err(Error::MustCallUnlockStakeFirst);
        }
        if info.withdraw_time > now {
            return Err(Error::StakeWithdrawalIsNotDue);
        }
        Ok(info.stake)
    }

    /// Ends a withdrawal of the stake of `caller`, given whether the
    /// transfer of the stake went through: if the stake was due at the
    /// instant `now` and the transfer went through, stake, delay and
    /// withdrawal time are cleared; if not, the row stays as it is.
    pub fn settle_withdraw_stake(
        &mut self,
        caller: AccountId,
        now: Timestamp,
        withdraw_address: AccountId,
        transferred: bool,
    ) -> (done: Result<StakeWithdrawn, Error>)
        ensures
            final(self)@ == spec_written(
                old(self)@,
                caller,
                spec_withdraw_stake(old(self)@[caller], now, transferred),
            ),
            match done {
                Ok(event) => spec_withdraw_stake(old(self)@[caller], now, transferred) is Ok
                    && event == (StakeWithdrawn {
                    account: caller,
                    withdraw_address,
                    amount: old(self)@[caller].stake,
                }),
                Err(e) => spec_withdraw_stake(old(self)@[caller], now, transferred) == Err::<
                    DepositInfo,
                    Error,
                >(e),
            },
    {
        match self.check_withdraw_stake(caller, now) {
            Ok(_) => {},
            Err(e) => {
                return Err(e);
            },
        }
        if !transferred {
            return Err(Error::FailedToWithdrawStake);
        }
        let info = self.get_deposit_info(caller);
        self.set_deposit_info(
            caller,
            DepositInfo { unstake_delay_sec: 0, withdraw_time: 0, stake: 0, ..info },
        );
        Ok(StakeWithdrawn { account: caller, withdraw_address, amount: info.stake })
    }

    /// Pays the stake of `caller` out to `withdraw_address`, if it was
    /// unlocked and the delay has passed at the instant `now`. Whether the
    /// transfer goes through is the host's to say; if it does not, or if the
    /// stake is not due, the ledger stays as it is.
    pub fn withdraw_stake<H: Host>(
        &mut self,
        host: &mut H,
        caller: AccountId,
        now: Timestamp,
        withdraw_address: AccountId,
    ) -> (done: Result<StakeWithdrawn, Error>)
        ensures
            final(self)@ == spec_written(
                old(self)@,
                caller,
                spec_withdraw_stake(old(self)@[caller], now, done is Ok),
            ),
            match done {
                Ok(event) => spec_withdraw_stake(old(self)@[caller], now, true) is Ok && event == (
                StakeWithdrawn {
                    account: caller,
                    withdraw_address,
                    amount: old(self)@[caller].stake,
                }),
                Err(e) => spec_withdraw_stake(old(self)@[caller], now, false) == Err::<
                    DepositInfo,
                    Error,
                >(e),
            },
    {
        let stake = match self.check_withdraw_stake(caller, now) {
            Ok(stake) => stake,
            Err(e) => {
                return Err(e);
            },
        };
        let transferred = host.transfer(withdraw_address, stake).is_ok();
        self.settle_withdraw_stake(caller, now, withdraw_address, transferred)
    }

    /// Ends a withdrawal of `withdraw_amount` from the deposit of `caller`,
    /// given whether the transfer of the amount went through: if the deposit
    /// covers the amount and the transfer went through, the deposit is
    /// debited; if not, the row stays as it is.
    pub fn settle_withdraw_to(
        &mut self,
        caller: AccountId,
        withdraw_address: AccountId,
        withdraw_amount: Balance,
        transferred: bool,
    ) -> (done: Result<Withdrawn, Error>)
        ensures
            final(self)@ == spec_written(
                old(self)@,
                caller,
                spec_withdraw_to(old(self)@[caller], withdraw_amount, transferred),
            ),
            match done {
                Ok(event) => spec_withdraw_to(old(self)@[caller], withdraw_amount, transferred) is Ok
                    && event == (Withdrawn {
                    account: caller,
                    withdraw_address,
                    amount: withdraw_amount,
                }),
                Err(e) => spec_withdraw_to(old(self)@[caller], withdraw_amount, transferred) == Err::<
                    DepositInfo,
                    Error,
                >(e),
            },
    {
        let info = self.get_deposit_info(caller);
        if withdraw_amount > info.deposit {
            return Err(Error::WithdrawAmountTooLarge);
        }
        if !transferred {
            return Err(Error::FailedToWithdraw);
        }
        let deposit = info.deposit - withdraw_amount;
        self.set_deposit_info(caller, DepositInfo { deposit, ..info });
        Ok(Withdrawn { account: caller, withdraw_address, amount: withdraw_amount })
    }

    /// Pays `withdraw_amount` of the deposit of `caller` out to
    /// `withdraw_address`. Whether the transfer goes through is the host's to
    /// say; if it does not, or if the deposit is smaller than the amount,
    /// the ledger stays as it is.
    pub fn withdraw_to<H: Host>(
        &mut self,
        host: &mut H,
        caller: AccountId,
        withdraw_address: AccountId,
        withdraw_amount: Balance,
    ) -> (done: Result<Withdrawn, Error>)
        ensures
            final(self)@ == spec_written(
                old(self)@,
                caller,
                spec_withdraw_to(old(self)@[caller], withdraw_amount, done is Ok),
            ),
            match done {
                Ok(event) => spec_withdraw_to(old(self)@[caller], withdraw_amount, true) is Ok
                    && event == (Withdrawn {
                    account: caller,
                    withdraw_address,
                    amount: withdraw_amount,
                }),
                Err(e) => spec_withdraw_to(old(self)@[caller], withdraw_amount, false) == Err::<
                    DepositInfo,
                    Error,
                >(e),
            },
    {
        let info = self.get_deposit_info(caller);
        if withdraw_amount > info.deposit {
            return Err(Error::WithdrawAmountTooLarge);
        }
        let transferred = host.transfer(withdraw_address, withdraw_amount).is_ok();
        self.settle_withdraw_to(caller, withdraw_address, withdraw_amount, transferred)
    }
}

/// A call on one row of the ledger.
pub enum LedgerCall {
    /// Credit the deposit with an amount.
    Credit(Balance),
    /// Take an amount out of the deposit.
    Debit(Balance),
    /// Lock an amount as stake, with a delay.
    AddStake(Balance, Timestamp),
    /// Unlock the stake at an instant.
    UnlockStake(Timestamp),
    /// Withdraw the stake at an instant; the flag says whether the transfer went through.
    WithdrawStake(Timestamp, bool),
    /// Withdraw an amount of the deposit; the flag says whether the transfer went through.
    WithdrawTo(Balance, bool),
}

/// What a call makes of a row, or why it is refused.
pub open spec fn spec_call(info: DepositInfo, call: LedgerCall) -> Result<DepositInfo, Error> {
    match call {
        LedgerCall::Credit(amount) => spec_credit(info, amount),
        LedgerCall::Debit(amount) => spec_debit(info, amount),
        LedgerCall::AddStake(value, delay) => spec_add_stake(info, value, delay),
        LedgerCall::UnlockStake(now) => spec_unlock_stake(info, now),
        LedgerCall::WithdrawStake(now, transferred) => spec_withdraw_stake(info, now, transferred),
        LedgerCall::WithdrawTo(amount, transferred) => spec_withdraw_to(info, amount, transferred),
    }
}

/// By how much a call, if it is accepted, changes the deposit of a row.
pub open spec fn spec_deposit_change(call: LedgerCall) -> int {
    match call {
        LedgerCall::Credit(amount) => amount as int,
        LedgerCall::Debit(amount) => -(amount as int),
        LedgerCall::WithdrawTo(amount, _) => -(amount as int),
        _ => 0,
    }
}

/// By how much a call, if it is accepted, changes the stake of a row.
pub open spec fn spec_stake_change(info: DepositInfo, call: LedgerCall) -> int {
    match call {
        LedgerCall::AddStake(value, _) => value as int,
        LedgerCall::WithdrawStake(_, _) => -(info.stake as int),
        _ => 0,
    }
}

/// The row after a run of calls, each call that is refused leaving it as it was.
pub open spec fn spec_calls(info: DepositInfo, calls: Seq<LedgerCall>) -> DepositInfo
    decreases calls.len(),
{
    if calls.len() == 0 {
        info
    } else {
        let before = spec_calls(info, calls.drop_last());
        match spec_call(before, calls.last()) {
            Ok(row) => row,
            Err(_) => before,
        }
    }
}

/// No call takes a deposit or a stake below zero, or beyond the balance
/// type: a call is accepted only if the deposit and the stake it asks for,
/// reckoned without bounds, are in range, and then the row holds exactly
/// these.
pub proof fn lemma_call_keeps_balances(info: DepositInfo, call: LedgerCall)
    ensures
        spec_call(info, call) matches Ok(row) ==> {
            &&& row.deposit == info.deposit + spec_deposit_change(call)
            &&& row.stake == info.stake + spec_stake_change(info, call)
            &&& 0 <= info.deposit + spec_deposit_change(call) <= Balance::MAX
            &&& 0 <= info.stake + spec_stake_change(info, call) <= Balance::MAX
        },
        !(0 <= info.deposit + spec_deposit_change(call) <= Balance::MAX) ==> spec_call(
            info,
            call,
        ) is Err,
        !(0 <= info.stake + spec_stake_change(info, call) <= Balance::MAX) ==> spec_call(
            info,
            call,
        ) is Err,
{
}

/// The deposit after a run of calls, reckoned without bounds: what was
/// there at first, and the change of each call that was accepted.
pub open spec fn spec_reckoned_deposit(info: DepositInfo, calls: Seq<LedgerCall>) -> int
    decreases calls.len(),
{
    if calls.len() == 0 {
        info.deposit as int
    } else {
        let before = spec_calls(info, calls.drop_last());
        spec_reckoned_deposit(info, calls.drop_last()) + if spec_call(before, calls.last())
            is Ok {
            spec_deposit_change(calls.last())
        } else {
            0
        }
    }
}

/// The stake after a run of calls, reckoned without bounds.
pub open spec fn spec_reckoned_stake(info: DepositInfo, calls: Seq<LedgerCall>) -> int
    decreases calls.len(),
{
    if calls.len() == 0 {
        info.stake as int
    } else {
        let before = spec_calls(info, calls.drop_last());
        spec_reckoned_stake(info, calls.drop_last()) + if spec_call(before, calls.last()) is Ok {
            spec_stake_change(before, calls.last())
        } else {
            0
        }
    }
}

/// Over any run of calls, deposit and stake never go below zero: reckoned
/// without bounds they stay in the range of the balance type, and the row
/// holds exactly what was reckoned.
pub proof fn lemma_calls_keep_balances(info: DepositInfo, calls: Seq<LedgerCall>)
    ensures
        spec_calls(info, calls).deposit == spec_reckoned_deposit(info, calls),
        spec_calls(info, calls).stake == spec_reckoned_stake(info, calls),
        0 <= spec_reckoned_deposit(info, calls) <= Balance::MAX,
        0 <= spec_reckoned_stake(info, calls) <= Balance::MAX,
    decreases calls.len(),
{
    if calls.len() > 0 {
        lemma_calls_keep_balances(info, calls.drop_last());
        lemma_call_keeps_balances(spec_calls(info, calls.drop_last()), calls.last());
    }
}

/// A call that is refused changes nothing: the ledger after it is the ledger before it.
pub proof fn lemma_failed_call_changes_nothing(
    ledger: Map<AccountId, DepositInfo>,
    account: AccountId,
    call: LedgerCall,
)
    requires
        spec_call(ledger[account], call) is Err,
    ensures
        spec_written(ledger, account, spec_call(ledger[account], call)) == ledger,
{
}

/// A call on the row of one account leaves the rows of all others as they were.
pub proof fn lemma_call_touches_one_row(
    ledger: Map<AccountId, DepositInfo>,
    account: AccountId,
    call: LedgerCall,
    other: AccountId,
)
    requires
        other != account,
    ensures
        spec_written(ledger, account, spec_call(ledger[account], call))[other] == ledger[other],
{
}

/// What the deposit ledger offers to the accounts that hold deposits and stakes in it.
pub trait IStakeManager {
    /// For each account, its row.
    spec fn deposits(&self) -> Map<AccountId, DepositInfo>;

    /// The row of `account`.
    fn get_deposit_info(&self, account: AccountId) -> (info: DepositInfo)
        ensures
            info == self.deposits()[account],
    ;

    /// The deposit of `account`.
    fn balance_of(&self, account: AccountId) -> (balance: Balance)
        ensures
            balance == self.deposits()[account].deposit,
    ;

    /// Credits `account` with `value`, the amount that came with the call.
    fn deposit_to(&mut self, account: AccountId, value: Balance) -> (done: Result<Deposited, Error>)
        ensures
            final(self).deposits() == spec_written(
                old(self).deposits(),
                account,
                spec_credit(old(self).deposits()[account], value),
            ),
            match done {
                Ok(event) => spec_credit(old(self).deposits()[account], value) is Ok && event == (
                Deposited {
                    account,
                    total_deposit: (old(self).deposits()[account].deposit + value) as Balance,
                }),
                Err(e) => spec_credit(old(self).deposits()[account], value) == Err::<
                    DepositInfo,
                    Error,
                >(e),
            },
    ;

    /// Locks `value`, the amount that came with the call, as stake of `caller`.
    fn add_stake(&mut self, caller: AccountId, value: Balance, unstake_delay_sec: Timestamp) -> (done:
        Result<StakeLocked, Error>)
        ensures
            final(self).deposits() == spec_written(
                old(self).deposits(),
                caller,
                spec_add_stake(old(self).deposits()[caller], value, unstake_delay_sec),
            ),
            match done {
                Ok(event) => spec_add_stake(
                    old(self).deposits()[caller],
                    value,
                    unstake_delay_sec,
                ) is Ok && event == (StakeLocked {
                    account: caller,
                    total_staked: (old(self).deposits()[caller].stake + value) as Balance,
                    unstake_delay_sec,
                }),
                Err(e) => spec_add_stake(old(self).deposits()[caller], value, unstake_delay_sec)
                    == Err::<DepositInfo, Error>(e),
            },
    ;

    /// Unlocks the stake of `caller` at the instant `now`.
    fn unlock_stake(&mut self, caller: AccountId, now: Timestamp) -> (done: Result<
        StakeUnlocked,
        Error,
    >)
        ensures
            final(self).deposits() == spec_written(
                old(self).deposits(),
                caller,
                spec_unlock_stake(old(self).deposits()[caller], now),
            ),
            match done {
                Ok(event) => spec_unlock_stake(old(self).deposits()[caller], now) is Ok && event
                    == (StakeUnlocked {
                    account: caller,
                    withdraw_time: spec_withdraw_time(
                        now,
                        old(self).deposits()[caller].unstake_delay_sec,
                    ),
                }),
                Err(e) => spec_unlock_stake(old(self).deposits()[caller], now) == Err::<
                    DepositInfo,
                    Error,
                >(e),
            },
    ;

    /// Pays the stake of `caller` out to `withdraw_address`, if it is due at
    /// the instant `now`. A stake that is not due is refused for the reason
    /// that holds; one that is due is paid out or, if the host refuses the
    /// transfer, left as it is with `FailedToWithdrawStake`.
    fn withdraw_stake<H: Host>(
        &mut self,
        host: &mut H,
        caller: AccountId,
        now: Timestamp,
        withdraw_address: AccountId,
    ) -> (done: Result<StakeWithdrawn, Error>)
        ensures
            final(self).deposits() == spec_written(
                old(self).deposits(),
                caller,
                spec_withdraw_stake(old(self).deposits()[caller], now, done is Ok),
            ),
            match done {
                Ok(event) => spec_withdraw_stake(old(self).deposits()[caller], now, true) is Ok
                    && event == (StakeWithdrawn {
                    account: caller,
                    withdraw_address,
                    amount: old(self).deposits()[caller].stake,
                }),
                Err(e) => spec_withdraw_stake(old(self).deposits()[caller], now, false) == Err::<
                    DepositInfo,
                    Error,
                >(e),
            },
    ;

    /// Pays `withdraw_amount` of the deposit of `caller` out to
    /// `withdraw_address`. An amount beyond the deposit is refused; one
    /// within it is paid out or, if the host refuses the transfer, left in
    /// the deposit with `FailedToWithdraw`.
    fn withdraw_to<H: Host>(
        &mut self,
        host: &mut H,
        caller: AccountId,
        withdraw_address: AccountId,
        withdraw_amount: Balance,
    ) -> (done: Result<Withdrawn, Error>)
        ensures
            final(self).deposits() == spec_written(
                old(self).deposits(),
                caller,
                spec_withdraw_to(old(self).deposits()[caller], withdraw_amount, done is Ok),
            ),
            match done {
                Ok(event) => spec_withdraw_to(old(self).deposits()[caller], withdraw_amount, true)
                    is Ok && event == (Withdrawn {
                    account: caller,
                    withdraw_address,
                    amount: withdraw_amount,
                }),
                Err(e) => spec_withdraw_to(old(self).deposits()[caller], withdraw_amount, false)
                    == Err::<DepositInfo, Error>(e),
            },
    ;
}

impl IStakeManager for StakeManager {
    open spec fn deposits(&self) -> Map<AccountId, DepositInfo> {
        self@
    }

    fn get_deposit_info(&self, account: AccountId) -> (info: DepositInfo) {
        StakeManager::get_deposit_info(self, account)
    }

    fn balance_of(&self, account: AccountId) -> (balance: Balance) {
        StakeManager::balance_of(self, account)
    }

    fn deposit_to(&mut self, account: AccountId, value: Balance) -> (done: Result<Deposited, Error>) {
        StakeManager::deposit_to(self, account, value)
    }

    fn add_stake(&mut self, caller: AccountId, value: Balance, unstake_delay_sec: Timestamp) -> (done:
        Result<StakeLocked, Error>) {
        StakeManager::add_stake(self, caller, value, unstake_delay_sec)
    }

    fn unlock_stake(&mut self, caller: AccountId, now: Timestamp) -> (done: Result<
        StakeUnlocked,
        Error,
    >) {
        StakeManager::unlock_stake(self, caller, now)
    }

    fn withdraw_stake<H: Host>(
        &mut self,
        host: &mut H,
        caller: AccountId,
        now: Timestamp,
        withdraw_address: AccountId,
    ) -> (done: Result<StakeWithdrawn, Error>) {
        StakeManager::withdraw_stake(self, host, caller, now, withdraw_address)
    }

    fn withdraw_to<H: Host>(
        &mut self,
        host: &mut H,
        caller: AccountId,
        withdraw_address: AccountId,
        withdraw_amount: Balance,
    ) -> (done: Result<Withdrawn, Error>) {
        StakeManager::withdraw_to(self, host, caller, withdraw_address, withdraw_amount)
    }
}

} // verus!
