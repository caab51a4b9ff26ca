//! The nonce ledger: for each sender and each 24-byte key, the next nonce
//! the sender has to use.

use vstd::prelude::*;
use crate::env::{account_eq, bytes_eq, AccountId};

verus! {

/// 256 to the power `n`.
pub open spec fn pow256(n: nat) -> nat
    decreases n,
{
    if n == 0 {
        1
    } else {
        256 * pow256((n - 1) as nat)
    }
}

/// The number that a byte string holds, most significant byte first.
pub open spec fn be_value(bytes: Seq<u8>) -> nat
    decreases bytes.len(),
{
    if bytes.len() == 0 {
        0
    } else {
        be_value(bytes.drop_last()) * 256 + bytes.last() as nat
    }
}

/// The `len` low bytes of a number, most significant byte first.
pub open spec fn be_bytes(n: nat, len: nat) -> Seq<u8>
    decreases len,
{
    if len == 0 {
        Seq::empty()
    } else {
        be_bytes(n / 256, (len - 1) as nat).push((n % 256) as u8)
    }
}

/// The nonce that follows `nonce`: one more, read as a number with the most
/// significant byte first, and all zero after all `0xff`.
pub open spec fn spec_increment(nonce: Seq<u8>) -> Seq<u8> {
    be_bytes((be_value(nonce) + 1) % pow256(nonce.len()), nonce.len())
}

/// The key of a nonce: its first 24 bytes.
pub open spec fn spec_nonce_key(nonce: Seq<u8>) -> Seq<u8> {
    nonce.subrange(0, 24)
}

/// The first nonce of a key: the key, then eight zero bytes.
pub open spec fn spec_first_nonce(key: Seq<u8>) -> Seq<u8> {
    key + Seq::new(8, |i: int| 0u8)
}

/// A byte string is the bytes of its own value.
pub proof fn lemma_be_bytes_of_value(bytes: Seq<u8>)
    ensures
        be_bytes(be_value(bytes), bytes.len()) == bytes,
        be_value(bytes) < pow256(bytes.len()),
    decreases bytes.len(),
{
    if bytes.len() == 0 {
        assert(be_bytes(be_value(bytes), bytes.len()) =~= bytes);
    } else {
        let head = bytes.drop_last();
        lemma_be_bytes_of_value(head);
        let v = be_value(bytes);
        assert(v / 256 == be_value(head) && v % 256 == bytes.last() as nat) by {
            let h = be_value(head);
            let l = bytes.last() as nat;
            assert(v == h * 256 + l);
            assert((h * 256 + l) / 256 == h && (h * 256 + l) % 256 == l) by (nonlinear_arith)
                requires
                    l < 256,
            ;
        }
        assert(be_bytes(v, bytes.len()) =~= bytes);
    }
}

/// The value of the bytes of a number is the number, as far as the bytes hold it.
pub proof fn lemma_be_value_of_bytes(n: nat, len: nat)
    ensures
        be_bytes(n, len).len() == len,
        be_value(be_bytes(n, len)) == n % pow256(len),
    decreases len,
{
    if len > 0 {
        lemma_be_value_of_bytes(n / 256, (len - 1) as nat);
        let s = be_bytes(n, len);
        assert(s.drop_last() =~= be_bytes(n / 256, (len - 1) as nat));
        let p = pow256((len - 1) as nat);
        lemma_pow256_positive((len - 1) as nat);
        vstd::arithmetic::div_mod::lemma_breakdown(n as int, 256, p as int);
        assert(n % (256 * p) == 256 * ((n / 256) % p) + n % 256);
    }
}

/// A power of 256 is at least 1.
pub proof fn lemma_pow256_positive(n: nat)
    ensures
        pow256(n) >= 1,
        n >= 1 ==> pow256(n) >= 256,
    decreases n,
{
    if n > 0 {
        lemma_pow256_positive((n - 1) as nat);
    }
}

/// The nonce that follows is never the nonce itself.
pub proof fn lemma_increment_differs(nonce: Seq<u8>)
    requires
        nonce.len() >= 1,
    ensures
        spec_increment(nonce) != nonce,
        spec_increment(nonce).len() == nonce.len(),
{
    let m = pow256(nonce.len());
    let v = be_value(nonce);
    lemma_pow256_positive(nonce.len());
    lemma_be_bytes_of_value(nonce);
    lemma_be_value_of_bytes((v + 1) % m, nonce.len());
    assert(((v + 1) % m) % m == (v + 1) % m) by (nonlinear_arith)
        requires
            m > 0,
    ;
    assert((v + 1) % m != v) by {
        if v + 1 < m {
            assert((v + 1) % m == v + 1) by (nonlinear_arith)
                requires
                    0 <= v + 1 < m,
            ;
        } else {
            assert(v + 1 == m);
            assert(m % m == 0) by (nonlinear_arith)
                requires
                    m > 0,
            ;
        }
    }
}

/// Carrying through a run of `0xff` bytes: if `after` is `before` with the
/// byte at `at` one higher and every later byte turned from `0xff` to zero,
/// its value is one more.
proof fn lemma_carry_adds_one(before: Seq<u8>, after: Seq<u8>, at: int)
    requires
        before.len() == after.len(),
        0 <= at < before.len(),
        before[at] < 255,
        after[at] == before[at] + 1,
        forall|j: int| 0 <= j < at ==> after[j] == before[j],
        forall|j: int| at < j < before.len() ==> before[j] == 255 && after[j] == 0,
    ensures
        be_value(after) == be_value(before) + 1,
    decreases before.len(),
{
    let last = before.len() - 1;
    if at == last {
        assert(after.drop_last() =~= before.drop_last());
    } else {
        lemma_carry_adds_one(before.drop_last(), after.drop_last(), at);
    }
}

/// A run of `0xff` bytes holds the greatest value of its length, a run of
/// zero bytes holds zero.
proof fn lemma_carry_wraps(before: Seq<u8>, after: Seq<u8>)
    requires
        before.len() == after.len(),
        forall|j: int| 0 <= j < before.len() ==> before[j] == 255 && after[j] == 0,
    ensures
        be_value(before) + 1 == pow256(before.len()),
        be_value(after) == 0,
    decreases before.len(),
{
    if before.len() > 0 {
        lemma_carry_wraps(before.drop_last(), after.drop_last());
    }
}

/// Steps a 32-byte counter to the value that follows: adds one to the number
/// it holds with the most significant byte first. A counter of all `0xff`
/// becomes all zero.
pub fn increment_bytes(bytes: &mut [u8; 32])
    ensures
        final(bytes)@ == spec_increment(old(bytes)@),
        be_value(final(bytes)@) == (be_value(old(bytes)@) + 1) % pow256(32),
{
    let mut carry = true;
    let mut i: usize = 32;
    while i > 0
        invariant
            i <= 32,
            bytes@.len() == 32,
            forall|j: int| 0 <= j < i ==> bytes@[j] == old(bytes)@[j],
            carry ==> forall|j: int| i <= j < 32 ==> old(bytes)@[j] == 255 && bytes@[j] == 0,
            !carry ==> be_value(bytes@) == be_value(old(bytes)@) + 1,
        decreases i,
    {
        i -= 1;
        if carry {
            if bytes[i] == 255 {
                bytes[i] = 0;
            } else {
                let b = bytes[i];
                bytes[i] = b + 1;
                carry = false;
                proof {
                    lemma_carry_adds_one(old(bytes)@, bytes@, i as int);
                }
            }
        }
    }
    proof {
        let m = pow256(32);
        let v = be_value(old(bytes)@);
        lemma_be_bytes_of_value(old(bytes)@);
        lemma_be_bytes_of_value(bytes@);
        if carry {
            lemma_carry_wraps(old(bytes)@, bytes@);
            assert(m % m == 0) by (nonlinear_arith)
                requires
                    m > 0,
            ;
        } else {
            assert((v + 1) % m == v + 1) by (nonlinear_arith)
                requires
                    0 <= v + 1 < m,
            ;
        }
    }
}

/// One row of the nonce ledger.
struct NonceEntry {
    sender: AccountId,
    key: [u8; 24],
    nonce: [u8; 32],
}

/// The row that holds for `sender` and `key`, from row `from` on: the first that names both.
spec fn spec_lookup(entries: Seq<NonceEntry>, from: int, sender: AccountId, key: Seq<u8>) -> Seq<u8>
    decreases entries.len() - from,
{
    if from < 0 || from >= entries.len() {
        spec_first_nonce(key)
    } else if entries[from].sender == sender && entries[from].key@ == key {
        entries[from].nonce@
    } else {
        spec_lookup(entries, from + 1, sender, key)
    }
}

/// The nonce ledger. For every sender and every key it holds the nonce that
/// the sender has to use next; one that was never used is the key followed
/// by eight zero bytes.
pub struct NonceManager {
    entries: Vec<NonceEntry>,
}

impl View for NonceManager {
    type V = Map<(AccountId, Seq<u8>), Seq<u8>>;

    /// For each sender and key, the next nonce.
    closed spec fn view(&self) -> Map<(AccountId, Seq<u8>), Seq<u8>> {
        Map::total(|k: (AccountId, Seq<u8>)| spec_lookup(self.entries@, 0, k.0, k.1))
    }
}

/// What checking `nonce` for `sender` makes of a ledger, and whether the nonce was the expected one.
pub open spec fn spec_validate_and_update_nonce(
    ledger: Map<(AccountId, Seq<u8>), Seq<u8>>,
    sender: AccountId,
    nonce: Seq<u8>,
) -> (Map<(AccountId, Seq<u8>), Seq<u8>>, bool) {
    let at = (sender, spec_nonce_key(nonce));
    if ledger[at] == nonce {
        (ledger.insert(at, spec_increment(nonce)), true)
    } else {
        (ledger, false)
    }
}

/// The key of a nonce: its first 24 bytes.
pub fn nonce_key(nonce: &[u8; 32]) -> (key: [u8; 24])
    ensures
        key@ == spec_nonce_key(nonce@),
{
    let mut key = [0u8; 24];
    let mut i: usize = 0;
    while i < 24
        invariant
            i <= 24,
            forall|j: int| 0 <= j < i ==> key@[j] == nonce@[j],
        decreases 24 - i,
    {
        key[i] = nonce[i];
        i += 1;
    }
    assert(key@ =~= spec_nonce_key(nonce@));
    key
}

/// The first nonce of a key: the key, then eight zero bytes.
pub fn first_nonce(key: &[u8; 24]) -> (nonce: [u8; 32])
    ensures
        nonce@ == spec_first_nonce(key@),
{
    let mut nonce = [0u8; 32];
    let mut i: usize = 0;
    while i < 24
        invariant
            i <= 24,
            forall|j: int| 0 <= j < i ==> nonce@[j] == key@[j],
            forall|j: int| i <= j < 32 ==> nonce@[j] == 0,
        decreases 24 - i,
    {
        nonce[i] = key[i];
        i += 1;
    }
    assert(nonce@ =~= spec_first_nonce(key@));
    nonce
}

impl NonceManager {
    /// A ledger in which no nonce was used yet.
    pub fn new() -> (ledger: Self)
        ensures
            forall|sender: AccountId, key: Seq<u8>| #[trigger]
                ledger@[(sender, key)] == spec_first_nonce(key),
            ledger@.dom() == Set::<(AccountId, Seq<u8>)>::full(),
    {
        NonceManager { entries: Vec::new() }
    }

    /// Every sender has a nonce under every key.
    pub proof fn lemma_total(&self)
        ensures
            self@.dom() == Set::<(AccountId, Seq<u8>)>::full(),
    {
    }

    /// The row of `sender` and `key`, if the ledger has one.
    fn find(&self, sender: &AccountId, key: &[u8; 24]) -> (at: Option<usize>)
        ensures
            match at {
                Some(i) => i < self.entries@.len() && self.entries@[i as int].sender == *sender
                    && self.entries@[i as int].key@ == key@ && self@[(*sender, key@)]
                    == self.entries@[i as int].nonce@ && forall|j: int|
                    0 <= j < i ==> !(self.entries@[j].sender == *sender && self.entries@[j].key@
                        == key@),
                None => self@[(*sender, key@)] == spec_first_nonce(key@) && forall|j: int|
                    0 <= j < self.entries@.len() ==> !(self.entries@[j].sender == *sender
                        && self.entries@[j].key@ == key@),
            },
    {
        let mut i: usize = 0;
        while i < self.entries.len()
            invariant
                i <= self.entries@.len(),
                spec_lookup(self.entries@, 0, *sender, key@) == spec_lookup(
                    self.entries@,
                    i as int,
                    *sender,
                    key@,
                ),
                forall|j: int|
                    0 <= j < i ==> !(self.entries@[j].sender == *sender && self.entries@[j].key@
                        == key@),
            decreases self.entries@.len() - i,
        {
            let entry = &self.entries[i];
            if account_eq(&entry.sender, sender) && bytes_eq(entry.key.as_slice(), key.as_slice()) {
                return Some(i);
            }
            i += 1;
        }
        None
    }

    /// Writes `nonce` as the next nonce of `sender` and `key`, whatever it
    /// was: the way a nonce that is kept elsewhere comes into the ledger.
    pub fn set_nonce(&mut self, sender: AccountId, key: [u8; 24], nonce: [u8; 32])
        ensures
            final(self)@ == old(self)@.insert((sender, key@), nonce@),
    {
        let found = self.find(&sender, &key);
        match found {
            Some(i) => {
                self.entries[i].nonce = nonce;
                proof {
                    lemma_lookup_after_set(old(self).entries@, self.entries@, i as int);
                }
            },
            None => {
                self.entries.push(NonceEntry { sender, key, nonce });
                proof {
                    lemma_lookup_after_push(old(self).entries@, self.entries@);
                }
            },
        }
        assert(self@ =~= old(self)@.insert((sender, key@), nonce@));
    }

    /// The nonce that `sender` has to use next under `key`.
    pub fn get_nonce(&self, sender: AccountId, key: [u8; 24]) -> (nonce: [u8; 32])
        ensures
            nonce@ == self@[(sender, key@)],
    {
        match self.find(&sender, &key) {
            Some(i) => self.entries[i].nonce,
            None => first_nonce(&key),
        }
    }

    /// Checks that `nonce` is the one `sender` has to use next under the
    /// nonce's own key, and if so steps the ledger to the nonce that follows.
    /// Otherwise the ledger stays as it is.
    pub fn validate_and_update_nonce(&mut self, sender: AccountId, nonce: [u8; 32]) -> (valid: bool)
        ensures
            valid == (old(self)@[(sender, spec_nonce_key(nonce@))] == nonce@),
            (final(self)@, valid) == spec_validate_and_update_nonce(old(self)@, sender, nonce@),
    {
        let key = nonce_key(&nonce);
        let expected = self.get_nonce(sender, key);
        if bytes_eq(expected.as_slice(), nonce.as_slice()) {
            let mut next = nonce;
            increment_bytes(&mut next);
            self.set_nonce(sender, key, next);
            true
        } else {
            false
        }
    }

    /// Steps the nonce of `caller` under `key` to the one that follows.
    pub fn increment_nonce(&mut self, caller: AccountId, key: [u8; 24])
        ensures
            final(self)@ == old(self)@.insert(
                (caller, key@),
                spec_increment(old(self)@[(caller, key@)]),
            ),
    {
        let mut nonce = self.get_nonce(caller, key);
        increment_bytes(&mut nonce);
        self.set_nonce(caller, key, nonce);
    }

    /// A copy of the ledger.
    pub fn snapshot(&self) -> (copy: Self)
        ensures
            copy@ == self@,
    {
        let mut entries: Vec<NonceEntry> = Vec::new();
        let mut i: usize = 0;
        while i < self.entries.len()
            invariant
                i <= self.entries@.len(),
                entries@ == self.entries@.subrange(0, i as int),
            decreases self.entries@.len() - i,
        {
            let entry = &self.entries[i];
            entries.push(NonceEntry { sender: entry.sender, key: entry.key, nonce: entry.nonce });
            i += 1;
            assert(entries@ =~= self.entries@.subrange(0, i as int));
        }
        assert(entries@ =~= self.entries@);
        NonceManager { entries }
    }
}

/// Rewriting the nonce of row `at` changes what holds for that row's sender and key, and nothing else.
proof fn lemma_lookup_after_set(before: Seq<NonceEntry>, after: Seq<NonceEntry>, at: int)
    requires
        0 <= at < before.len(),
        after.len() == before.len(),
        after[at].sender == before[at].sender,
        after[at].key == before[at].key,
        forall|j: int| 0 <= j < before.len() && j != at ==> after[j] == before[j],
        forall|j: int|
            0 <= j < at ==> !(before[j].sender == before[at].sender && before[j].key@
                == before[at].key@),
    ensures
        forall|sender: AccountId, key: Seq<u8>|
            #![trigger spec_lookup(after, 0, sender, key)]
            spec_lookup(after, 0, sender, key) == if sender == before[at].sender && key
                == before[at].key@ {
                after[at].nonce@
            } else {
                spec_lookup(before, 0, sender, key)
            },
{
    assert forall|sender: AccountId, key: Seq<u8>|
        #![trigger spec_lookup(after, 0, sender, key)]
        spec_lookup(after, 0, sender, key) == if sender == before[at].sender && key
            == before[at].key@ {
            after[at].nonce@
        } else {
            spec_lookup(before, 0, sender, key)
        } by {
        lemma_lookup_after_set_from(before, after, at, 0, sender, key);
    }
}

proof fn lemma_lookup_after_set_from(
    before: Seq<NonceEntry>,
    after: Seq<NonceEntry>,
    at: int,
    from: int,
    sender: AccountId,
    key: Seq<u8>,
)
    requires
        0 <= at < before.len(),
        0 <= from <= before.len(),
        after.len() == before.len(),
        after[at].sender == before[at].sender,
        after[at].key == before[at].key,
        forall|j: int| 0 <= j < before.len() && j != at ==> after[j] == before[j],
        forall|j: int|
            0 <= j < at ==> !(before[j].sender == before[at].sender && before[j].key@
                == before[at].key@),
    ensures
        (sender == before[at].sender && key == before[at].key@) ==> (from <= at ==> spec_lookup(
            after,
            from,
            sender,
            key,
        ) == after[at].nonce@),
        !(sender == before[at].sender && key == before[at].key@) ==> spec_lookup(
            after,
            from,
            sender,
            key,
        ) == spec_lookup(before, from, sender, key),
    decreases before.len() - from,
{
    if from < before.len() {
        lemma_lookup_after_set_from(before, after, at, from + 1, sender, key);
    }
}

/// A new last row for a sender and key that no row names changes what holds for them, and nothing else.
proof fn lemma_lookup_after_push(before: Seq<NonceEntry>, after: Seq<NonceEntry>)
    requires
        after.len() == before.len() + 1,
        forall|j: int| 0 <= j < before.len() ==> after[j] == before[j],
        forall|j: int|
            0 <= j < before.len() ==> !(before[j].sender == after.last().sender && before[j].key@
                == after.last().key@),
    ensures
        forall|sender: AccountId, key: Seq<u8>|
            #![trigger spec_lookup(after, 0, sender, key)]
            spec_lookup(after, 0, sender, key) == if sender == after.last().sender && key
                == after.last().key@ {
                after.last().nonce@
            } else {
                spec_lookup(before, 0, sender, key)
            },
{
    assert forall|sender: AccountId, key: Seq<u8>|
        #![trigger spec_lookup(after, 0, sender, key)]
        spec_lookup(after, 0, sender, key) == if sender == after.last().sender && key
            == after.last().key@ {
            after.last().nonce@
        } else {
            spec_lookup(before, 0, sender, key)
        } by {
        lemma_lookup_after_push_from(before, after, 0, sender, key);
    }
}

proof fn lemma_lookup_after_push_from(
    before: Seq<NonceEntry>,
    after: Seq<NonceEntry>,
    from: int,
    sender: AccountId,
    key: Seq<u8>,
)
    requires
        0 <= from <= before.len(),
        after.len() == before.len() + 1,
        forall|j: int| 0 <= j < before.len() ==> after[j] == before[j],
        forall|j: int|
            0 <= j < before.len() ==> !(before[j].sender == after.last().sender && before[j].key@
                == after.last().key@),
    ensures
        spec_lookup(after, from, sender, key) == if sender == after.last().sender && key
            == after.last().key@ {
            after.last().nonce@
        } else {
            spec_lookup(before, from, sender, key)
        },
    decreases before.len() - from,
{
    if from < before.len() {
        lemma_lookup_after_push_from(before, after, from + 1, sender, key);
    } else {
        assert(spec_lookup(after, from + 1, sender, key) == spec_first_nonce(key));
    }
}

/// A nonce that was accepted is not accepted again: once `nonce` has been
/// checked with success, checking it once more fails and leaves the ledger
/// as the first check left it.
pub proof fn lemma_replay_fails(
    ledger: Map<(AccountId, Seq<u8>), Seq<u8>>,
    sender: AccountId,
    nonce: Seq<u8>,
)
    requires
        nonce.len() == 32,
        spec_validate_and_update_nonce(ledger, sender, nonce).1,
    ensures
        ({
            let used = spec_validate_and_update_nonce(ledger, sender, nonce).0;
            &&& used[(sender, spec_nonce_key(nonce))] == spec_increment(nonce)
            &&& spec_validate_and_update_nonce(used, sender, nonce) == (used, false)
        }),
{
    lemma_increment_differs(nonce);
}

/// Checking a nonce touches the row of its own sender and key only.
pub proof fn lemma_other_keys_untouched(
    ledger: Map<(AccountId, Seq<u8>), Seq<u8>>,
    sender: AccountId,
    nonce: Seq<u8>,
    other_sender: AccountId,
    other_key: Seq<u8>,
)
    requires
        (other_sender, other_key) != (sender, spec_nonce_key(nonce)),
    ensures
        spec_validate_and_update_nonce(ledger, sender, nonce).0[(other_sender, other_key)]
            == ledger[(other_sender, other_key)],
{
}

} // verus!
