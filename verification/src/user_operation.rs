//! The operation a sender asks the coordinator to run, and its canonical hash.

use vstd::prelude::*;
use vstd::bytes::{spec_u64_to_le_bytes, spec_u64_from_le_bytes, lemma_auto_spec_u64_to_from_le_bytes};
use crate::env::{all_zero, is_all_zero, zero_account, AccountId};
use crate::codec::{append_bytes, copy_bytes, scale_encode_array, scale_encode_u64};
use crate::helpers::{keccak256, keccak256_digest};

verus! {

/// Who pays for an operation: a sponsor alone, or a sponsor with data for
/// it. The all-zero account stands for "no sponsor".
#[derive(Debug, PartialEq, Eq)]
pub enum PaymasterAndData {
    OnlyPaymaster(AccountId),
    PaymasterAndData { paymaster: AccountId, data: Vec<u8> },
}

/// `PaymasterAndData` as contracts see it.
pub enum PaymasterAndDataView {
    OnlyPaymaster(AccountId),
    PaymasterAndData { paymaster: AccountId, data: Seq<u8> },
}

impl PaymasterAndDataView {
    /// The sponsor's account.
    pub open spec fn paymaster(self) -> AccountId {
        match self {
            PaymasterAndDataView::OnlyPaymaster(paymaster) => paymaster,
            PaymasterAndDataView::PaymasterAndData { paymaster, .. } => paymaster,
        }
    }

    /// The data for the sponsor; none counts as empty.
    pub open spec fn data(self) -> Seq<u8> {
        match self {
            PaymasterAndDataView::OnlyPaymaster(_) => Seq::empty(),
            PaymasterAndDataView::PaymasterAndData { data, .. } => data,
        }
    }

    /// Whether no sponsor is named.
    pub open spec fn is_eq_zero(self) -> bool {
        all_zero(self.paymaster()@)
    }

    /// The bytes that are hashed: the sponsor's account, then the data.
    pub open spec fn bytes(self) -> Seq<u8> {
        self.paymaster()@ + self.data()
    }

    /// The digest that stands for the value in an operation's packed form.
    pub open spec fn hash(self) -> crate::env::Hash {
        keccak256_digest(self.bytes())
    }
}

impl View for PaymasterAndData {
    type V = PaymasterAndDataView;

    open spec fn view(&self) -> PaymasterAndDataView {
        match *self {
            PaymasterAndData::OnlyPaymaster(paymaster) => PaymasterAndDataView::OnlyPaymaster(
                paymaster,
            ),
            PaymasterAndData::PaymasterAndData {
                paymaster,
                data,
            } => PaymasterAndDataView::PaymasterAndData { paymaster, data: data@ },
        }
    }
}

impl Clone for PaymasterAndData {
    fn clone(&self) -> (copy: Self)
        ensures
            copy@ == self@,
    {
        match self {
            PaymasterAndData::OnlyPaymaster(paymaster) => PaymasterAndData::OnlyPaymaster(
                *paymaster,
            ),
            PaymasterAndData::PaymasterAndData {
                paymaster,
                data,
            } => PaymasterAndData::PaymasterAndData {
                paymaster: *paymaster,
                data: copy_bytes(data.as_slice()),
            },
        }
    }
}

impl PaymasterAndData {
    /// Tells whether no sponsor is named: whether the sponsor's account is all zero.
    pub fn is_eq_zero(&self) -> (zero: bool)
        ensures
            zero == self@.is_eq_zero(),
    {
        is_all_zero(self.paymaster_ref().as_slice())
    }

    /// The sponsor's account, borrowed.
    pub fn paymaster_ref(&self) -> (paymaster: &AccountId)
        ensures
            *paymaster == self@.paymaster(),
    {
        match self {
            PaymasterAndData::OnlyPaymaster(paymaster) => paymaster,
            PaymasterAndData::PaymasterAndData { paymaster, .. } => paymaster,
        }
    }

    /// The sponsor's account.
    pub fn paymaster(&self) -> (paymaster: AccountId)
        ensures
            paymaster == self@.paymaster(),
    {
        *self.paymaster_ref()
    }

    /// The sponsor's account, giving up the value.
    pub fn paymaster_take(self) -> (paymaster: AccountId)
        ensures
            paymaster == self@.paymaster(),
    {
        match self {
            PaymasterAndData::OnlyPaymaster(paymaster) => paymaster,
            PaymasterAndData::PaymasterAndData { paymaster, .. } => paymaster,
        }
    }

    /// The Keccak-256 digest of the sponsor's account followed by the data.
    pub fn hash(&self) -> (hash: [u8; 32])
        ensures
            hash == self@.hash(),
    {
        let mut bytes = scale_encode_array(self.paymaster_ref());
        match self {
            PaymasterAndData::OnlyPaymaster(_) => {},
            PaymasterAndData::PaymasterAndData { data, .. } => {
                append_bytes(&mut bytes, data.as_slice());
            },
        }
        assert(bytes@ =~= self@.bytes());
        keccak256(bytes.as_slice())
    }
}

/// A call that a sender asks the coordinator to make for it, with the gas it
/// grants and the price it accepts.
#[derive(Debug, PartialEq, Eq)]
pub struct UserOperation {
    /// The account the operation acts for.
    pub sender: AccountId,
    /// A 24-byte key and, after it, an 8-byte sequence number within that key.
    pub nonce: [u8; 32],
    /// Code to deploy the sender with, should it not exist.
    pub init_code: Vec<u8>,
    /// The contract to call.
    pub callee: AccountId,
    /// The message of the callee to call.
    pub selector: [u8; 4],
    /// The arguments of the call.
    pub call_data: Vec<u8>,
    /// Gas granted to the call.
    pub call_gas_limit: u64,
    /// Gas granted to validation.
    pub verification_gas_limit: u64,
    /// Gas paid for what happens outside the coordinator.
    pub pre_verification_gas: u64,
    /// The highest price per gas the sender accepts.
    pub max_fee_per_gas: u64,
    /// The highest priority price per gas the sender accepts.
    pub max_priority_fee_per_gas: u64,
    /// The sponsor that pays, if any.
    pub paymaster_and_data: PaymasterAndData,
    /// Proof that the sender agrees; not part of the hash.
    pub signature: Vec<u8>,
}

/// `UserOperation` as contracts see it.
pub struct UserOperationView {
    pub sender: AccountId,
    pub nonce: [u8; 32],
    pub init_code: Seq<u8>,
    pub callee: AccountId,
    pub selector: [u8; 4],
    pub call_data: Seq<u8>,
    pub call_gas_limit: u64,
    pub verification_gas_limit: u64,
    pub pre_verification_gas: u64,
    pub max_fee_per_gas: u64,
    pub max_priority_fee_per_gas: u64,
    pub paymaster_and_data: PaymasterAndDataView,
    pub signature: Seq<u8>,
}

impl View for UserOperation {
    type V = UserOperationView;

    open spec fn view(&self) -> UserOperationView {
        UserOperationView {
            sender: self.sender,
            nonce: self.nonce,
            init_code: self.init_code@,
            callee: self.callee,
            selector: self.selector,
            call_data: self.call_data@,
            call_gas_limit: self.call_gas_limit,
            verification_gas_limit: self.verification_gas_limit,
            pre_verification_gas: self.pre_verification_gas,
            max_fee_per_gas: self.max_fee_per_gas,
            max_priority_fee_per_gas: self.max_priority_fee_per_gas,
            paymaster_and_data: self.paymaster_and_data@,
            signature: self.signature@,
        }
    }
}

impl UserOperationView {
    /// The price per gas the operation pays: the lower of its two ceilings.
    pub open spec fn gas_price(self) -> u64 {
        if self.max_fee_per_gas <= self.max_priority_fee_per_gas {
            self.max_fee_per_gas
        } else {
            self.max_priority_fee_per_gas
        }
    }

    /// The packed form: every field but the signature, in the order of the
    /// fields, each array as it stands, each number as eight little-endian
    /// bytes, and the three fields of open length by their digests.
    pub open spec fn pack(self) -> Seq<u8> {
        self.sender@ + self.nonce@ + keccak256_digest(self.init_code)@ + self.callee@
            + self.selector@ + keccak256_digest(self.call_data)@ + spec_u64_to_le_bytes(
            self.call_gas_limit,
        ) + spec_u64_to_le_bytes(self.verification_gas_limit) + spec_u64_to_le_bytes(
            self.pre_verification_gas,
        ) + spec_u64_to_le_bytes(self.max_fee_per_gas) + spec_u64_to_le_bytes(
            self.max_priority_fee_per_gas,
        ) + self.paymaster_and_data.hash()@
    }

    /// The canonical hash: the digest of the packed form.
    pub open spec fn hash(self) -> crate::env::Hash {
        keccak256_digest(self.pack())
    }

    /// Whether two operations ask for the same thing: whether they agree in
    /// every field but the signature, a sponsor without data counting as
    /// one with empty data.
    pub open spec fn same_intent(self, other: UserOperationView) -> bool {
        &&& self.sender == other.sender
        &&& self.nonce == other.nonce
        &&& self.init_code == other.init_code
        &&& self.callee == other.callee
        &&& self.selector == other.selector
        &&& self.call_data == other.call_data
        &&& self.call_gas_limit == other.call_gas_limit
        &&& self.verification_gas_limit == other.verification_gas_limit
        &&& self.pre_verification_gas == other.pre_verification_gas
        &&& self.max_fee_per_gas == other.max_fee_per_gas
        &&& self.max_priority_fee_per_gas == other.max_priority_fee_per_gas
        &&& self.paymaster_and_data.bytes() == other.paymaster_and_data.bytes()
    }
}

impl Clone for UserOperation {
    fn clone(&self) -> (copy: Self)
        ensures
            copy@ == self@,
    {
        UserOperation {
            sender: self.sender,
            nonce: self.nonce,
            init_code: copy_bytes(self.init_code.as_slice()),
            callee: self.callee,
            selector: self.selector,
            call_data: copy_bytes(self.call_data.as_slice()),
            call_gas_limit: self.call_gas_limit,
            verification_gas_limit: self.verification_gas_limit,
            pre_verification_gas: self.pre_verification_gas,
            max_fee_per_gas: self.max_fee_per_gas,
            max_priority_fee_per_gas: self.max_priority_fee_per_gas,
            paymaster_and_data: self.paymaster_and_data.clone(),
            signature: copy_bytes(self.signature.as_slice()),
        }
    }
}

impl Default for UserOperation {
    fn default() -> (op: Self)
        ensures
            all_zero(op@.sender@),
            all_zero(op@.nonce@),
            op@.init_code.len() == 0,
            all_zero(op@.callee@),
            all_zero(op@.selector@),
            op@.call_data.len() == 0,
            op@.call_gas_limit == 0,
            op@.verification_gas_limit == 0,
            op@.pre_verification_gas == 0,
            op@.max_fee_per_gas == 0,
            op@.max_priority_fee_per_gas == 0,
            op@.paymaster_and_data is OnlyPaymaster,
            op@.paymaster_and_data.is_eq_zero(),
            op@.signature.len() == 0,
    {
        UserOperation {
            sender: zero_account(),
            nonce: [0u8; 32],
            init_code: Vec::new(),
            callee: zero_account(),
            selector: [0u8; 4],
            call_data: Vec::new(),
            call_gas_limit: 0,
            verification_gas_limit: 0,
            pre_verification_gas: 0,
            max_fee_per_gas: 0,
            max_priority_fee_per_gas: 0,
            paymaster_and_data: PaymasterAndData::OnlyPaymaster(zero_account()),
            signature: Vec::new(),
        }
    }
}

impl UserOperation {
    /// The price per gas the operation pays: the lower of its two ceilings.
    pub fn gas_price(&self) -> (price: u64)
        ensures
            price == self@.gas_price(),
    {
        let max_fee_per_gas = self.max_fee_per_gas;
        let max_priority_fee_per_gas = self.max_priority_fee_per_gas;
        if max_fee_per_gas == max_priority_fee_per_gas {
            max_fee_per_gas
        } else if max_fee_per_gas < max_priority_fee_per_gas {
            max_fee_per_gas
        } else {
            max_priority_fee_per_gas
        }
    }

    /// The packed form of the operation: what its hash is taken of.
    pub fn pack(&self) -> (packed: Vec<u8>)
        ensures
            packed@ == self@.pack(),
    {
        let init_code = keccak256(self.init_code.as_slice());
        let call_data = keccak256(self.call_data.as_slice());
        let paymaster_and_data = self.paymaster_and_data.hash();
        let mut packed = scale_encode_array(&self.sender);
        append_bytes(&mut packed, scale_encode_array(&self.nonce).as_slice());
        append_bytes(&mut packed, scale_encode_array(&init_code).as_slice());
        append_bytes(&mut packed, scale_encode_array(&self.callee).as_slice());
        append_bytes(&mut packed, scale_encode_array(&self.selector).as_slice());
        append_bytes(&mut packed, scale_encode_array(&call_data).as_slice());
        append_bytes(&mut packed, scale_encode_u64(self.call_gas_limit).as_slice());
        append_bytes(&mut packed, scale_encode_u64(self.verification_gas_limit).as_slice());
        append_bytes(&mut packed, scale_encode_u64(self.pre_verification_gas).as_slice());
        append_bytes(&mut packed, scale_encode_u64(self.max_fee_per_gas).as_slice());
        append_bytes(&mut packed, scale_encode_u64(self.max_priority_fee_per_gas).as_slice());
        append_bytes(&mut packed, scale_encode_array(&paymaster_and_data).as_slice());
        packed
    }

    /// The canonical hash of the operation: the Keccak-256 digest of its
    /// packed form. The signature has no part in it.
    pub fn hash(&self) -> (hash: [u8; 32])
        ensures
            hash == self@.hash(),
    {
        let packed = self.pack();
        keccak256(packed.as_slice())
    }
}

/// Whether two different byte strings with one Keccak-256 digest exist.
pub open spec fn keccak256_collides() -> bool {
    exists|x: Seq<u8>, y: Seq<u8>| x != y && #[trigger] keccak256_digest(x) == #[trigger] keccak256_digest(y)
}

/// Two operations that differ in nothing but their signatures have the same
/// canonical hash.
pub proof fn lemma_hash_ignores_signature(a: UserOperationView, b: UserOperationView)
    requires
        b == (UserOperationView { signature: b.signature, ..a }),
    ensures
        a.pack() == b.pack(),
        a.hash() == b.hash(),
{
}

/// The packed form holds each field it is made of: two operations with one
/// packed form ask for the same thing, unless two inputs share a digest.
pub proof fn lemma_pack_binds_fields(a: UserOperationView, b: UserOperationView)
    requires
        a.pack() == b.pack(),
    ensures
        a.same_intent(b) || keccak256_collides(),
{
    lemma_auto_spec_u64_to_from_le_bytes();
    let pa = a.pack();
    let pb = b.pack();
    assert(pa.len() == 236);
    assert(pa.subrange(0, 32) =~= a.sender@);
    assert(pb.subrange(0, 32) =~= b.sender@);
    assert(a.sender =~= b.sender);
    assert(pa.subrange(32, 64) =~= a.nonce@);
    assert(pb.subrange(32, 64) =~= b.nonce@);
    assert(a.nonce =~= b.nonce);
    assert(pa.subrange(64, 96) =~= keccak256_digest(a.init_code)@);
    assert(pb.subrange(64, 96) =~= keccak256_digest(b.init_code)@);
    assert(keccak256_digest(a.init_code) =~= keccak256_digest(b.init_code));
    assert(pa.subrange(96, 128) =~= a.callee@);
    assert(pb.subrange(96, 128) =~= b.callee@);
    assert(a.callee =~= b.callee);
    assert(pa.subrange(128, 132) =~= a.selector@);
    assert(pb.subrange(128, 132) =~= b.selector@);
    assert(a.selector =~= b.selector);
    assert(pa.subrange(132, 164) =~= keccak256_digest(a.call_data)@);
    assert(pb.subrange(132, 164) =~= keccak256_digest(b.call_data)@);
    assert(keccak256_digest(a.call_data) =~= keccak256_digest(b.call_data));
    assert(pa.subrange(164, 172) =~= spec_u64_to_le_bytes(a.call_gas_limit));
    assert(pb.subrange(164, 172) =~= spec_u64_to_le_bytes(b.call_gas_limit));
    assert(pa.subrange(172, 180) =~= spec_u64_to_le_bytes(a.verification_gas_limit));
    assert(pb.subrange(172, 180) =~= spec_u64_to_le_bytes(b.verification_gas_limit));
    assert(pa.subrange(180, 188) =~= spec_u64_to_le_bytes(a.pre_verification_gas));
    assert(pb.subrange(180, 188) =~= spec_u64_to_le_bytes(b.pre_verification_gas));
    assert(pa.subrange(188, 196) =~= spec_u64_to_le_bytes(a.max_fee_per_gas));
    assert(pb.subrange(188, 196) =~= spec_u64_to_le_bytes(b.max_fee_per_gas));
    assert(pa.subrange(196, 204) =~= spec_u64_to_le_bytes(a.max_priority_fee_per_gas));
    assert(pb.subrange(196, 204) =~= spec_u64_to_le_bytes(b.max_priority_fee_per_gas));
    assert(pa.subrange(204, 236) =~= a.paymaster_and_data.hash()@);
    assert(pb.subrange(204, 236) =~= b.paymaster_and_data.hash()@);
    assert(a.paymaster_and_data.hash() =~= b.paymaster_and_data.hash());
    assert(spec_u64_from_le_bytes(spec_u64_to_le_bytes(a.call_gas_limit)) == a.call_gas_limit);
    assert(spec_u64_from_le_bytes(spec_u64_to_le_bytes(b.call_gas_limit)) == b.call_gas_limit);
    if !keccak256_collides() {
        assert(a.init_code == b.init_code);
        assert(a.call_data == b.call_data);
        assert(a.paymaster_and_data.bytes() == b.paymaster_and_data.bytes());
    }
}

/// Two operations with one canonical hash ask for the same thing: they
/// agree in every field but the signature, unless two different inputs
/// share a Keccak-256 digest.
pub proof fn lemma_hash_binds_fields(a: UserOperationView, b: UserOperationView)
    requires
        a.hash() == b.hash(),
    ensures
        a.same_intent(b) || keccak256_collides(),
{
    if a.pack() == b.pack() {
        lemma_pack_binds_fields(a, b);
    }
}

} // verus!
