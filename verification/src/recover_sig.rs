//! A wallet with several owners, some number of whom have to agree.

use vstd::prelude::*;
use crate::base_account::BaseAccountTrait;
use crate::env::{account_before, account_eq, lemma_before_is_total, lemma_before_is_transitive, lemma_rising_is_distinct, spec_account_before, spec_rising, AccountId, Timestamp};
use crate::error::Error;
use crate::helpers::{Aggregator, ValidationData};
use crate::user_operation::UserOperation;

verus! {

/// The most owners a wallet can have.
pub const MAX_OWNERS: u32 = 50;

/// For how long after it was validated an operation of the wallet stays valid.
pub const SIGNATURE_WINDOW: Timestamp = 5000;

/// Whether enough owners have agreed.
#[derive(Debug, Clone, Copy, PartialEq, Eq)]
pub enum ConfirmationStatus {
    /// Enough owners have agreed.
    Confirmed,
    /// This many owners have yet to agree.
    ConfirmationsNeeded(u32),
}

/// Told when the wallet got an owner.
#[derive(Debug, Clone, Copy, PartialEq, Eq)]
pub struct OwnerAddition {
    /// The new owner.
    pub owner: AccountId,
}

/// Told when the wallet lost an owner.
#[derive(Debug, Clone, Copy, PartialEq, Eq)]
pub struct OwnerRemoval {
    /// The owner that left.
    pub owner: AccountId,
}

/// Told when the number of owners that have to agree changed.
#[derive(Debug, Clone, Copy, PartialEq, Eq)]
pub struct RequirementChange {
    /// The number that holds from now on.
    pub new_requirement: u32,
}

/// Whether `requirement` of `owners` owners can be asked to agree: at least
/// one, no more than there are, and no more owners than a wallet can have.
pub open spec fn spec_requirement_is_valid(owners: int, requirement: int) -> bool {
    0 < requirement && requirement <= owners && owners <= MAX_OWNERS
}

/// Tells whether `requirement` of `owners` owners can be asked to agree.
pub fn ensure_requirement_is_valid(owners: u32, requirement: u32) -> (valid: bool)
    ensures
        valid == spec_requirement_is_valid(owners as int, requirement as int),
{
    0 < requirement && requirement <= owners && owners <= MAX_OWNERS
}

/// A wallet with several owners.
#[derive(Debug, PartialEq, Eq)]
pub struct RecoverSig {
    owners: Vec<AccountId>,
    requirement: u32,
}

impl RecoverSig {
    /// The owners.
    pub closed spec fn owners(&self) -> Seq<AccountId> {
        self.owners@
    }

    /// How many owners have to agree.
    pub closed spec fn spec_requirement(&self) -> u32 {
        self.requirement
    }

    /// What holds of every wallet: no owner is listed twice, and the number
    /// of owners that have to agree fits the number of owners.
    pub open spec fn wf(&self) -> bool {
        &&& self.owners().no_duplicates()
        &&& spec_requirement_is_valid(self.owners().len() as int, self.spec_requirement() as int)
    }

    /// The first place of `owner` in `owners`, if it is among them.
    fn position(owners: &Vec<AccountId>, owner: &AccountId) -> (at: Option<usize>)
        ensures
            match at {
                Some(i) => i < owners@.len() && owners@[i as int] == *owner && forall|j: int|
                    0 <= j < i ==> owners@[j] != *owner,
                None => !owners@.contains(*owner),
            },
    {
        let mut i: usize = 0;
        while i < owners.len()
            invariant
                i <= owners@.len(),
                forall|j: int| 0 <= j < i ==> owners@[j] != *owner,
            decreases owners@.len() - i,
        {
            if account_eq(&owners[i], owner) {
                return Some(i);
            }
            i += 1;
        }
        None
    }

    /// The place at which `owner` belongs in the rising list `owners`: all
    /// before that place stand before `owner`, and `owner` is the one at
    /// that place or stands before it.
    fn place_of(owners: &Vec<AccountId>, owner: &AccountId) -> (at: usize)
        requires
            spec_rising(owners@),
        ensures
            at <= owners@.len(),
            forall|j: int| 0 <= j < at ==> spec_account_before(owners@[j], *owner),
            forall|j: int|
                at <= j < owners@.len() ==> owners@[j] == *owner || spec_account_before(
                    *owner,
                    owners@[j],
                ),
            at < owners@.len() && owners@[at as int] != *owner ==> !owners@.contains(*owner),
            at == owners@.len() ==> !owners@.contains(*owner),
    {
        let mut i: usize = 0;
        while i < owners.len() && account_before(&owners[i], owner)
            invariant
                i <= owners@.len(),
                forall|j: int| 0 <= j < i ==> spec_account_before(owners@[j], *owner),
            decreases owners@.len() - i,
        {
            i += 1;
        }
        proof {
            lemma_before_is_total(*owner, *owner);
            if i < owners@.len() {
                lemma_before_is_total(owners@[i as int], *owner);
                assert forall|j: int| i <= j < owners@.len() implies owners@[j] == *owner
                    || spec_account_before(*owner, owners@[j]) by {
                    if j > i {
                        assert(spec_account_before(owners@[i as int], owners@[j]));
                        if owners@[i as int] != *owner {
                            lemma_before_is_transitive(*owner, owners@[i as int], owners@[j]);
                        }
                    }
                }
            }
            assert forall|j: int| 0 <= j < owners@.len() && owners@[j] == *owner implies j
                == i by {
                if j > i {
                    assert(spec_account_before(owners@[i as int], owners@[j]));
                    lemma_before_is_total(owners@[i as int], *owner);
                }
            }
        }
        i
    }

    /// A wallet of the given owners, `requirement` of whom have to agree. An
    /// owner that is named more than once counts once, and the owners are
    /// kept in rising order. There is no such wallet if `requirement` does
    /// not fit the number of owners.
    pub fn new(requirement: u32, owners: Vec<AccountId>) -> (wallet: Option<Self>)
        ensures
            wallet is Some <==> spec_requirement_is_valid(
                owners@.to_set().len() as int,
                requirement as int,
            ),
            match wallet {
                Some(wallet) => {
                    &&& wallet.wf()
                    &&& wallet.spec_requirement() == requirement
                    &&& spec_rising(wallet.owners())
                    &&& forall|id: AccountId|
                        wallet.owners().contains(id) <==> owners@.contains(id)
                },
                None => true,
            },
    {
        let mut rising: Vec<AccountId> = Vec::new();
        let mut i: usize = 0;
        while i < owners.len()
            invariant
                i <= owners@.len(),
                spec_rising(rising@),
                rising@.len() <= i,
                forall|id: AccountId|
                    rising@.contains(id) <==> owners@.subrange(0, i as int).contains(id),
            decreases owners@.len() - i,
        {
            let owner = owners[i];
            let ghost before = rising@;
            let at = RecoverSig::place_of(&rising, &owner);
            let known = at < rising.len() && account_eq(&rising[at], &owner);
            if !known {
                rising.insert(at, owner);
                proof {
                    assert forall|a: int, b: int| 0 <= a < b < rising@.len() implies spec_account_before(
                        rising@[a],
                        rising@[b],
                    ) by {
                        if b < at {
                            assert(rising@[a] == before[a] && rising@[b] == before[b]);
                        } else if b == at {
                            assert(rising@[a] == before[a]);
                        } else if a < at {
                            assert(rising@[a] == before[a] && rising@[b] == before[b - 1]);
                        } else if a == at {
                            assert(rising@[b] == before[b - 1]);
                        } else {
                            assert(rising@[a] == before[a - 1] && rising@[b] == before[b - 1]);
                        }
                    }
                }
            }
            proof {
                let seen = owners@.subrange(0, i as int);
                let now = owners@.subrange(0, i + 1);
                assert(now =~= seen.push(owner));
                assert forall|id: AccountId| rising@.contains(id) <==> now.contains(id) by {
                    if rising@.contains(id) {
                        let p = choose|p: int| 0 <= p < rising@.len() && rising@[p] == id;
                        if known {
                            assert(before.contains(id));
                        } else if p < at {
                            assert(before[p] == id);
                        } else if p > at {
                            assert(before[p - 1] == id);
                        }
                        if id == owner {
                            assert(now[i as int] == id);
                        } else {
                            assert(before.contains(id));
                            let was = choose|was: int| 0 <= was < seen.len() && seen[was] == id;
                            assert(now[was] == id);
                        }
                    }
                    if now.contains(id) {
                        let p = choose|p: int| 0 <= p < now.len() && now[p] == id;
                        if p < i {
                            assert(seen[p] == id);
                            assert(before.contains(id));
                            let was = choose|was: int| 0 <= was < before.len() && before[was] == id;
                            if known {
                                assert(rising@[was] == id);
                            } else if was < at {
                                assert(rising@[was] == id);
                            } else {
                                assert(rising@[was + 1] == id);
                            }
                        } else {
                            assert(id == owner);
                            assert(rising@[at as int] == id);
                        }
                    }
                }
            }
            i += 1;
        }
        assert(owners@.subrange(0, owners@.len() as int) =~= owners@);
        proof {
            lemma_rising_is_distinct(rising@);
            rising@.unique_seq_to_set();
            assert(rising@.to_set() =~= owners@.to_set());
        }
        if rising.len() > MAX_OWNERS as usize {
            return None;
        }
        if !ensure_requirement_is_valid(rising.len() as u32, requirement) {
            return None;
        }
        Some(RecoverSig { owners: rising, requirement })
    }

    /// The wallet that holds exactly `owners`, in the order given,
    /// `requirement` of whom have to agree. There is no such wallet if an
    /// owner is named twice or if `requirement` does not fit the number of
    /// owners.
    pub fn with_owners(requirement: u32, owners: Vec<AccountId>) -> (wallet: Option<Self>)
        ensures
            wallet is Some <==> owners@.no_duplicates() && spec_requirement_is_valid(
                owners@.len() as int,
                requirement as int,
            ),
            match wallet {
                Some(wallet) => {
                    &&& wallet.wf()
                    &&& wallet.spec_requirement() == requirement
                    &&& wallet.owners() == owners@
                },
                None => true,
            },
    {
        let mut i: usize = 0;
        while i < owners.len()
            invariant
                i <= owners@.len(),
                forall|a: int, b: int| 0 <= a < b < i ==> owners@[a] != owners@[b],
            decreases owners@.len() - i,
        {
            match RecoverSig::position(&owners, &owners[i]) {
                Some(at) => {
                    if at != i {
                        assert(owners@[at as int] == owners@[i as int]);
                        return None;
                    }
                },
                None => {
                    assert(owners@[i as int] == owners@[i as int]);
                    return None;
                },
            }
            i += 1;
        }
        if owners.len() > MAX_OWNERS as usize {
            return None;
        }
        if !ensure_requirement_is_valid(owners.len() as u32, requirement) {
            return None;
        }
        Some(RecoverSig { owners, requirement })
    }

    /// How many owners have to agree.
    pub fn requirement(&self) -> (requirement: u32)
        ensures
            requirement == self.spec_requirement(),
    {
        self.requirement
    }

    /// The owners, in the order in which the wallet keeps them.
    pub fn owner_list(&self) -> (list: Vec<AccountId>)
        ensures
            list@ == self.owners(),
    {
        let mut list: Vec<AccountId> = Vec::new();
        let mut i: usize = 0;
        while i < self.owners.len()
            invariant
                i <= self.owners@.len(),
                list@ == self.owners@.subrange(0, i as int),
            decreases self.owners@.len() - i,
        {
            list.push(self.owners[i]);
            i += 1;
            assert(list@ =~= self.owners@.subrange(0, i as int));
        }
        assert(list@ =~= self.owners@);
        list
    }

    /// Tells whether `owner` is an owner of the wallet.
    pub fn is_owner(&self, owner: &AccountId) -> (owns: bool)
        ensures
            owns == self.owners().contains(*owner),
    {
        RecoverSig::position(&self.owners, owner).is_some()
    }

    /// Tells whether the caller is the wallet itself, which alone may change its owners.
    pub fn ensure_from_wallet(caller: &AccountId, own: &AccountId) -> (same: bool)
        ensures
            same == (*caller == *own),
    {
        account_eq(caller, own)
    }

    /// The place of `owner` among the owners.
    fn owner_index(&self, owner: &AccountId) -> (at: u32)
        requires
            self.wf(),
            self.owners().contains(*owner),
        ensures
            at < self.owners().len(),
            self.owners()[at as int] == *owner,
    {
        match RecoverSig::position(&self.owners, owner) {
            Some(i) => i as u32,
            None => 0,
        }
    }

    /// Makes `new_owner` an owner of the wallet.
    pub fn add_owner(&mut self, new_owner: AccountId) -> (told: OwnerAddition)
        requires
            old(self).wf(),
            !old(self).owners().contains(new_owner),
            spec_requirement_is_valid(
                (old(self).owners().len() + 1) as int,
                old(self).spec_requirement() as int,
            ),
        ensures
            final(self).wf(),
            final(self).owners() == old(self).owners().push(new_owner),
            final(self).spec_requirement() == old(self).spec_requirement(),
            told.owner == new_owner,
    {
        self.owners.push(new_owner);
        OwnerAddition { owner: new_owner }
    }

    /// Takes `owner` from the owners of the wallet. If fewer owners are left
    /// than had to agree, all that are left have to agree from now on.
    pub fn remove_owner(&mut self, owner: AccountId) -> (told: OwnerRemoval)
        requires
            old(self).wf(),
            old(self).owners().contains(owner),
            old(self).owners().len() >= 2,
        ensures
            final(self).wf(),
            final(self).owners().len() == old(self).owners().len() - 1,
            forall|id: AccountId|
                final(self).owners().contains(id) <==> old(self).owners().contains(id) && id
                    != owner,
            final(self).spec_requirement() == if old(self).spec_requirement() <= final(self).owners().len() {
                old(self).spec_requirement()
            } else {
                final(self).owners().len() as u32
            },
            told.owner == owner,
    {
        let len = self.owners.len() as u32 - 1;
        let requirement = if len < self.requirement {
            len
        } else {
            self.requirement
        };
        let owner_index = self.owner_index(&owner) as usize;
        let ghost before = self.owners@;
        self.owners.swap_remove(owner_index);
        self.requirement = requirement;
        proof {
            let after = self.owners@;
            assert forall|id: AccountId| after.contains(id) <==> before.contains(id) && id
                != owner by {
                if after.contains(id) {
                    let at = choose|at: int| 0 <= at < after.len() && after[at] == id;
                    if at == owner_index {
                        assert(before[before.len() - 1] == id);
                    } else {
                        assert(before[at] == id);
                    }
                }
                if before.contains(id) && id != owner {
                    let at = choose|at: int| 0 <= at < before.len() && before[at] == id;
                    if at == before.len() - 1 {
                        assert(after[owner_index as int] == id);
                    } else {
                        assert(after[at] == id);
                    }
                }
            }
        }
        OwnerRemoval { owner }
    }

    /// Puts `new_owner` in the place of `old_owner`.
    pub fn replace_owner(&mut self, old_owner: AccountId, new_owner: AccountId) -> (told: (
        OwnerRemoval,
        OwnerAddition,
    ))
        requires
            old(self).wf(),
            old(self).owners().contains(old_owner),
            !old(self).owners().contains(new_owner),
        ensures
            final(self).wf(),
            final(self).owners().len() == old(self).owners().len(),
            forall|id: AccountId|
                final(self).owners().contains(id) <==> (old(self).owners().contains(id) && id
                    != old_owner) || id == new_owner,
            final(self).spec_requirement() == old(self).spec_requirement(),
            told.0.owner == old_owner,
            told.1.owner == new_owner,
    {
        let owner_index = self.owner_index(&old_owner) as usize;
        let ghost before = self.owners@;
        self.owners[owner_index] = new_owner;
        proof {
            let after = self.owners@;
            assert forall|id: AccountId|
                after.contains(id) <==> (before.contains(id) && id != old_owner) || id
                    == new_owner by {
                if after.contains(id) {
                    let at = choose|at: int| 0 <= at < after.len() && after[at] == id;
                    if at != owner_index {
                        assert(before[at] == id);
                    }
                }
                if before.contains(id) && id != old_owner {
                    let at = choose|at: int| 0 <= at < before.len() && before[at] == id;
                    assert(after[at] == id);
                }
                if id == new_owner {
                    assert(after[owner_index as int] == id);
                }
            }
        }
        (OwnerRemoval { owner: old_owner }, OwnerAddition { owner: new_owner })
    }

    /// Changes how many owners have to agree.
    pub fn change_requirement(&mut self, new_requirement: u32) -> (told: RequirementChange)
        requires
            old(self).wf(),
            spec_requirement_is_valid(old(self).owners().len() as int, new_requirement as int),
        ensures
            final(self).wf(),
            final(self).owners() == old(self).owners(),
            final(self).spec_requirement() == new_requirement,
            told.new_requirement == new_requirement,
    {
        self.requirement = new_requirement;
        RequirementChange { new_requirement }
    }

    /// What the wallet answers at the instant `now` when it is asked to
    /// check a signature: it vouches for itself, from `now` until 5000 later.
    pub open spec fn spec_answer(now: Timestamp) -> Option<ValidationData> {
        if now + SIGNATURE_WINDOW > Timestamp::MAX {
            None
        } else {
            Some(
                ValidationData {
                    aggregator: Aggregator::VerifiedBySelf,
                    valid_after: now,
                    valid_until: (now + SIGNATURE_WINDOW) as Timestamp,
                },
            )
        }
    }
}

impl BaseAccountTrait for RecoverSig {
    fn validate_signature(&self, _op: &UserOperation, _user_op_hash: [u8; 32], now: Timestamp) -> (done:
        Result<ValidationData, Error>)
        ensures
            match RecoverSig::spec_answer(now) {
                Some(data) => done == Ok::<ValidationData, Error>(data),
                None => done == Err::<ValidationData, Error>(Error::GasValuesOverflow),
            },
    {
        let valid_until = match now.checked_add(SIGNATURE_WINDOW) {
            Some(until) => until,
            None => {
                return Err(Error::GasValuesOverflow);
            },
        };
        Ok(ValidationData { aggregator: Aggregator::VerifiedBySelf, valid_after: now, valid_until })
    }

    fn validate_nonce(&self, _nonce: [u8; 32]) -> (done: Result<(), Error>)
        ensures
            done is Ok,
    {
        Ok(())
    }
}

} // verus!
