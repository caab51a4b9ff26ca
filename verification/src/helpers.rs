//! Hashing, and what a validation call answers.

use vstd::prelude::*;
use vstd::bytes::{spec_u64_to_le_bytes, spec_u64_from_le_bytes, lemma_auto_spec_u64_to_from_le_bytes, spec_u64_to_le_bytes_to_open};
use ink::env::hash::CryptoHash;
use crate::env::{all_zero, account_eq, AccountId, Timestamp};
use crate::codec::{append_bytes, scale_encode_array, scale_encode_u64};

verus! {

/// The Keccak-256 digest of a byte string.
pub uninterp spec fn keccak256_digest(input: Seq<u8>) -> crate::env::Hash;

/// Calls `ink::env::hash::Keccak256::hash`, which writes the Keccak-256
/// digest of `input` into the 32-byte array it is handed. The digest depends
/// on the input bytes alone; which bytes it holds is not stated here.
#[verifier::external_body]
pub fn keccak256(input: &[u8]) -> (hash: [u8; 32])
    ensures
        hash == keccak256_digest(input@),
{
    let mut hash = [0u8; 32];
    ink::env::hash::Keccak256::hash(input, &mut hash);
    hash
}

/// The Keccak-256 digest of a byte string, as a `Hash`.
pub fn keccak256_hash(input: &[u8]) -> (hash: crate::env::Hash)
    ensures
        hash == keccak256_digest(input@),
{
    keccak256(input)
}

/// Calls `num_traits::Zero::zero` for the timestamp type, which gives 0.
#[verifier::external_body]
fn zero_timestamp() -> (t: Timestamp)
    ensures
        t == 0,
{
    num_traits::Zero::zero()
}

/// Who vouches for an operation's signature.
#[derive(Clone, Copy, Debug, PartialEq, Eq)]
pub enum Aggregator {
    /// The account checked the signature itself.
    VerifiedBySelf,
    /// The named aggregator has to check the signature.
    VerifiedBy(AccountId),
    /// The signature check failed.
    FailedVerification,
}

impl Default for Aggregator {
    fn default() -> (a: Self)
        ensures
            a == Aggregator::VerifiedBySelf,
    {
        Aggregator::VerifiedBySelf
    }
}

impl Aggregator {
    /// The SCALE encoding: the variant's index, then the account of `VerifiedBy`.
    pub open spec fn spec_encode(self) -> Seq<u8> {
        match self {
            Aggregator::VerifiedBySelf => seq![0u8],
            Aggregator::VerifiedBy(id) => seq![1u8] + id@,
            Aggregator::FailedVerification => seq![2u8],
        }
    }

    /// Tells whether two aggregator claims are the same.
    pub fn same(&self, other: &Aggregator) -> (same: bool)
        ensures
            same == (*self == *other),
    {
        match (self, other) {
            (Aggregator::VerifiedBySelf, Aggregator::VerifiedBySelf) => true,
            (Aggregator::VerifiedBy(a), Aggregator::VerifiedBy(b)) => account_eq(a, b),
            (Aggregator::FailedVerification, Aggregator::FailedVerification) => true,
            _ => false,
        }
    }

    /// Appends the SCALE encoding to `out`.
    pub fn encode_to(&self, out: &mut Vec<u8>)
        ensures
            final(out)@ == old(out)@ + self.spec_encode(),
    {
        match self {
            Aggregator::VerifiedBySelf => {
                out.push(0u8);
                assert(out@ =~= old(out)@ + self.spec_encode());
            },
            Aggregator::VerifiedBy(id) => {
                out.push(1u8);
                let bytes = scale_encode_array(id);
                append_bytes(out, bytes.as_slice());
                assert(out@ =~= old(out)@ + self.spec_encode());
            },
            Aggregator::FailedVerification => {
                out.push(2u8);
                assert(out@ =~= old(out)@ + self.spec_encode());
            },
        }
    }
}

/// What a validation call answers: who vouches for the signature, and the
/// window of time in which the operation is valid.
#[derive(Clone, Copy, Debug, PartialEq, Eq)]
pub struct ValidationData {
    pub aggregator: Aggregator,
    pub valid_after: Timestamp,
    pub valid_until: Timestamp,
}

impl Default for ValidationData {
    fn default() -> (data: Self)
        ensures
            data == (ValidationData {
                aggregator: Aggregator::VerifiedBySelf,
                valid_after: 0,
                valid_until: 0,
            }),
    {
        ValidationData {
            aggregator: Aggregator::default(),
            valid_after: zero_timestamp(),
            valid_until: zero_timestamp(),
        }
    }
}

impl ValidationData {
    /// The SCALE encoding: the aggregator, then both instants as eight
    /// little-endian bytes each.
    pub open spec fn spec_encode(self) -> Seq<u8> {
        self.aggregator.spec_encode() + spec_u64_to_le_bytes(self.valid_after)
            + spec_u64_to_le_bytes(self.valid_until)
    }

    /// Whether the encoding holds zero bytes only. Such a value stands for
    /// "verification failed", though its fields read "verified by the account
    /// itself, at instant 0 only".
    pub open spec fn spec_is_failure_sentinel(self) -> bool {
        self.aggregator == Aggregator::VerifiedBySelf && self.valid_after == 0 && self.valid_until
            == 0
    }

    /// The SCALE encoding of the value.
    pub fn encode(&self) -> (bytes: Vec<u8>)
        ensures
            bytes@ == self.spec_encode(),
    {
        let mut bytes: Vec<u8> = Vec::new();
        self.aggregator.encode_to(&mut bytes);
        let after = scale_encode_u64(self.valid_after);
        append_bytes(&mut bytes, after.as_slice());
        let until = scale_encode_u64(self.valid_until);
        append_bytes(&mut bytes, until.as_slice());
        assert(bytes@ =~= self.spec_encode());
        bytes
    }

    /// Tells whether the value is the all-zero sentinel for a failed verification.
    pub fn is_failure_sentinel(&self) -> (sentinel: bool)
        ensures
            sentinel == all_zero(self.spec_encode()),
            sentinel == self.spec_is_failure_sentinel(),
    {
        proof {
            lemma_zero_encoding(*self);
        }
        let bytes = self.encode();
        crate::env::is_all_zero(bytes.as_slice())
    }
}

/// The eight little-endian bytes of a number are all zero exactly when the number is zero.
pub proof fn lemma_le_bytes_zero(x: u64)
    ensures
        all_zero(spec_u64_to_le_bytes(x)) <==> x == 0,
{
    lemma_auto_spec_u64_to_from_le_bytes();
    spec_u64_to_le_bytes_to_open(x);
    spec_u64_to_le_bytes_to_open(0);
    let zero = spec_u64_to_le_bytes(0);
    assert(all_zero(zero)) by {
        assert(0u64 & 0xff == 0 && (0u64 >> 8) & 0xff == 0 && (0u64 >> 16) & 0xff == 0 && (0u64
            >> 24) & 0xff == 0 && (0u64 >> 32) & 0xff == 0 && (0u64 >> 40) & 0xff == 0 && (0u64
            >> 48) & 0xff == 0 && (0u64 >> 56) & 0xff == 0) by (bit_vector);
    }
    if all_zero(spec_u64_to_le_bytes(x)) {
        assert(spec_u64_to_le_bytes(x) =~= zero);
        assert(spec_u64_from_le_bytes(spec_u64_to_le_bytes(x)) == x);
        assert(spec_u64_from_le_bytes(zero) == 0);
    }
}

/// The encoding of a validation answer is all zero exactly when the answer
/// names no aggregator and both its instants are zero.
pub proof fn lemma_zero_encoding(data: ValidationData)
    ensures
        all_zero(data.spec_encode()) <==> data.spec_is_failure_sentinel(),
{
    lemma_auto_spec_u64_to_from_le_bytes();
    lemma_le_bytes_zero(data.valid_after);
    lemma_le_bytes_zero(data.valid_until);
    let head = data.aggregator.spec_encode();
    let after = spec_u64_to_le_bytes(data.valid_after);
    let until = spec_u64_to_le_bytes(data.valid_until);
    let all = data.spec_encode();
    assert(head.len() >= 1);
    assert(all.len() == head.len() + 16);
    if all_zero(all) {
        assert(all[0] == head[0]);
        assert(data.aggregator == Aggregator::VerifiedBySelf);
        assert forall|i: int| 0 <= i < 8 implies after[i] == 0 by {
            assert(all[head.len() + i] == after[i]);
        }
        assert forall|i: int| 0 <= i < 8 implies until[i] == 0 by {
            assert(all[head.len() + 8 + i] == until[i]);
        }
    }
    if data.spec_is_failure_sentinel() {
        assert forall|i: int| 0 <= i < all.len() implies all[i] == 0 by {
            if i >= 1 && i < 9 {
                assert(all[i] == after[i - 1]);
            } else if i >= 9 {
                assert(all[i] == until[i - 9]);
            }
        }
    }
}

/// The later of two instants.
pub open spec fn spec_later(a: Timestamp, b: Timestamp) -> Timestamp {
    if a >= b {
        a
    } else {
        b
    }
}

/// The earlier of two instants.
pub open spec fn spec_earlier(a: Timestamp, b: Timestamp) -> Timestamp {
    if a <= b {
        a
    } else {
        b
    }
}

/// The answer that holds for both the account and the sponsor.
pub open spec fn spec_intersect_time_range(
    account: ValidationData,
    paymaster: ValidationData,
) -> ValidationData {
    ValidationData {
        aggregator: if account.aggregator == Aggregator::VerifiedBySelf {
            paymaster.aggregator
        } else {
            account.aggregator
        },
        valid_after: spec_later(account.valid_after, paymaster.valid_after),
        valid_until: spec_earlier(account.valid_until, paymaster.valid_until),
    }
}

/// Intersects the validity windows of the account and of the sponsor. The
/// aggregator is the account's, unless the account verified by itself: then
/// it is the sponsor's.
pub fn intersect_time_range(
    account_validation_data: ValidationData,
    paymaster_validation_data: ValidationData,
) -> (both: ValidationData)
    ensures
        both == spec_intersect_time_range(account_validation_data, paymaster_validation_data),
{
    let aggregator = match account_validation_data.aggregator {
        Aggregator::VerifiedBySelf => paymaster_validation_data.aggregator,
        _ => account_validation_data.aggregator,
    };
    let valid_after = if account_validation_data.valid_after
        >= paymaster_validation_data.valid_after {
        account_validation_data.valid_after
    } else {
        paymaster_validation_data.valid_after
    };
    let valid_until = if account_validation_data.valid_until
        <= paymaster_validation_data.valid_until {
        account_validation_data.valid_until
    } else {
        paymaster_validation_data.valid_until
    };
    ValidationData { aggregator, valid_after, valid_until }
}

} // verus!
