//! The value types of the chain environment the coordinator runs in.

use vstd::prelude::*;

verus! {

/// Identifies an account or a contract.
pub type AccountId = [u8; 32];

/// An amount of the chain's native token.
pub type Balance = u128;

/// A 32-byte digest.
pub type Hash = [u8; 32];

/// Milliseconds on the chain's clock.
pub type Timestamp = u64;

/// A block height.
pub type BlockNumber = u32;

/// Whether every byte of `bytes` is zero.
pub open spec fn all_zero(bytes: Seq<u8>) -> bool {
    forall|i: int| 0 <= i < bytes.len() ==> bytes[i] == 0
}

/// The account id that stands for "nobody".
pub fn zero_account() -> (id: AccountId)
    ensures
        all_zero(id@),
{
    let id: AccountId = [0u8; 32];
    id
}

/// Tells whether a byte string holds only zero bytes.
pub fn is_all_zero(bytes: &[u8]) -> (zero: bool)
    ensures
        zero == all_zero(bytes@),
{
    let mut i: usize = 0;
    while i < bytes.len()
        invariant
            i <= bytes.len(),
            forall|j: int| 0 <= j < i ==> bytes@[j] == 0,
        decreases bytes.len() - i,
    {
        if bytes[i] != 0 {
            return false;
        }
        i += 1;
    }
    true
}

/// Compares two byte strings.
pub fn bytes_eq(a: &[u8], b: &[u8]) -> (same: bool)
    ensures
        same == (a@ == b@),
{
    if a.len() != b.len() {
        return false;
    }
    let mut i: usize = 0;
    while i < a.len()
        invariant
            a.len() == b.len(),
            i <= a.len(),
            forall|j: int| 0 <= j < i ==> a@[j] == b@[j],
        decreases a.len() - i,
    {
        if a[i] != b[i] {
            return false;
        }
        i += 1;
    }
    assert(a@ =~= b@);
    true
}

/// Compares two account ids.
pub fn account_eq(a: &AccountId, b: &AccountId) -> (same: bool)
    ensures
        same == (*a == *b),
{
    let same = bytes_eq(a.as_slice(), b.as_slice());
    proof {
        if same {
            assert(*a =~= *b);
        }
    }
    same
}

/// Whether `a` stands before `b` when account ids are ordered byte by
/// byte from the front: at the first place where they differ, `a` holds the
/// smaller byte.
pub open spec fn spec_account_before(a: AccountId, b: AccountId) -> bool {
    exists|k: int|
        0 <= k < 32 && a@[k] < b@[k] && (forall|j: int| 0 <= j < k ==> a@[j] == b@[j])
}

/// Whether the account ids of `ids` stand in rising order, none of them twice.
pub open spec fn spec_rising(ids: Seq<AccountId>) -> bool {
    forall|i: int, j: int| 0 <= i < j < ids.len() ==> spec_account_before(ids[i], ids[j])
}

/// Whatever stands before an account id stands before all that it stands
/// before.
pub proof fn lemma_before_is_transitive(a: AccountId, b: AccountId, c: AccountId)
    requires
        spec_account_before(a, b),
        spec_account_before(b, c),
    ensures
        spec_account_before(a, c),
{
    let k1 = choose|k: int|
        0 <= k < 32 && a@[k] < b@[k] && (forall|j: int| 0 <= j < k ==> a@[j] == b@[j]);
    let k2 = choose|k: int|
        0 <= k < 32 && b@[k] < c@[k] && (forall|j: int| 0 <= j < k ==> b@[j] == c@[j]);
    let k = if k1 <= k2 {
        k1
    } else {
        k2
    };
    assert(0 <= k < 32 && a@[k] < c@[k] && (forall|j: int| 0 <= j < k ==> a@[j] == c@[j]));
}

/// Of two account ids exactly one thing holds: they are the same, the first
/// stands before the second, or the second before the first.
pub proof fn lemma_before_is_total(a: AccountId, b: AccountId)
    ensures
        a == b || spec_account_before(a, b) || spec_account_before(b, a),
        !(spec_account_before(a, b) && spec_account_before(b, a)),
        !spec_account_before(a, a),
{
    if spec_account_before(a, b) && spec_account_before(b, a) {
        lemma_before_is_transitive(a, b, a);
    }
    if a != b {
        lemma_first_difference(a, b, 0);
    }
}

/// Two account ids that agree before place `from` and are not the same
/// differ at a first place, which decides their order.
proof fn lemma_first_difference(a: AccountId, b: AccountId, from: int)
    requires
        0 <= from <= 32,
        a != b,
        forall|j: int| 0 <= j < from ==> a@[j] == b@[j],
    ensures
        spec_account_before(a, b) || spec_account_before(b, a),
    decreases 32 - from,
{
    if from == 32 {
        assert(a =~= b);
    } else if a@[from] < b@[from] {
        assert(0 <= from < 32 && a@[from] < b@[from] && (forall|j: int|
            0 <= j < from ==> a@[j] == b@[j]));
    } else if b@[from] < a@[from] {
        assert(0 <= from < 32 && b@[from] < a@[from] && (forall|j: int|
            0 <= j < from ==> b@[j] == a@[j]));
    } else {
        lemma_first_difference(a, b, from + 1);
    }
}

/// A rising list of account ids names none of them twice.
pub proof fn lemma_rising_is_distinct(ids: Seq<AccountId>)
    requires
        spec_rising(ids),
    ensures
        ids.no_duplicates(),
{
    assert forall|i: int, j: int| 0 <= i < ids.len() && 0 <= j < ids.len() && i != j implies ids[i]
        != ids[j] by {
        lemma_before_is_total(ids[i], ids[i]);
        if i < j {
            assert(spec_account_before(ids[i], ids[j]));
        } else {
            assert(spec_account_before(ids[j], ids[i]));
        }
    }
}

/// Tells whether `a` stands before `b`.
pub fn account_before(a: &AccountId, b: &AccountId) -> (before: bool)
    ensures
        before == spec_account_before(*a, *b),
{
    let mut i: usize = 0;
    while i < 32
        invariant
            i <= 32,
            forall|j: int| 0 <= j < i ==> a@[j] == b@[j],
        decreases 32 - i,
    {
        if a[i] < b[i] {
            assert(0 <= i < 32 && a@[i as int] < b@[i as int] && (forall|j: int|
                0 <= j < i ==> a@[j] == b@[j]));
            return true;
        }
        if a[i] > b[i] {
            assert forall|k: int| 0 <= k < 32 && a@[k] < b@[k] implies !(forall|j: int|
                0 <= j < k ==> a@[j] == b@[j]) by {
                if k > i {
                    assert(a@[i as int] != b@[i as int]);
                }
            }
            return false;
        }
        i += 1;
    }
    false
}

} // verus!
