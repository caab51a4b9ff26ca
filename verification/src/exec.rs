//! The call an operation asks for, and bytes that are passed on unread.

use vstd::prelude::*;
use crate::env::{AccountId, Balance};
use crate::codec::{append_bytes, copy_bytes};

verus! {

/// Calls `num_traits::Zero::zero` for the balance type, which gives 0.
#[verifier::external_body]
fn zero_balance() -> (value: Balance)
    ensures
        value == 0,
{
    num_traits::Zero::zero()
}

/// A call to a contract.
#[derive(Debug, PartialEq, Eq)]
pub struct Transaction {
    /// The contract that is called.
    pub callee: AccountId,
    /// The message of the callee that is called.
    pub selector: [u8; 4],
    /// The encoded arguments of the message.
    pub input: Vec<u8>,
    /// What is sent along to the callee.
    pub transferred_value: Balance,
    /// The gas the call may use.
    pub gas_limit: u64,
    /// Whether the callee may call back into the caller.
    pub allow_reentry: bool,
}

impl Transaction {
    /// A call that sends no value along and may not call back.
    pub fn new(callee: AccountId, selector: [u8; 4], call_data: Vec<u8>, gas_limit: u64) -> (call:
        Self)
        ensures
            call.callee == callee,
            call.selector == selector,
            call.input == call_data,
            call.gas_limit == gas_limit,
            call.transferred_value == 0,
            !call.allow_reentry,
    {
        Transaction {
            callee,
            selector,
            input: call_data,
            gas_limit,
            transferred_value: zero_balance(),
            allow_reentry: false,
        }
    }
}

/// Bytes that are passed on as they are: their encoding is the bytes
/// themselves, with no length before them, and decoding takes all there is.
#[derive(Debug, PartialEq, Eq)]
pub struct OpaqueTypes(pub Vec<u8>);

impl View for OpaqueTypes {
    type V = Seq<u8>;

    open spec fn view(&self) -> Seq<u8> {
        self.0@
    }
}

impl Clone for OpaqueTypes {
    fn clone(&self) -> (copy: Self)
        ensures
            copy@ == self@,
    {
        OpaqueTypes(copy_bytes(self.0.as_slice()))
    }
}

impl OpaqueTypes {
    /// The length of the encoding.
    pub fn size_hint(&self) -> (size: usize)
        ensures
            size == self@.len(),
    {
        self.0.len()
    }

    /// Appends the encoding, which is the bytes themselves, to `output`.
    pub fn encode_to(&self, output: &mut Vec<u8>)
        ensures
            final(output)@ == old(output)@ + self@,
    {
        append_bytes(output, self.0.as_slice());
    }

    /// The encoding, which is the bytes themselves.
    pub fn encode(&self) -> (bytes: Vec<u8>)
        ensures
            bytes@ == self@,
    {
        copy_bytes(self.0.as_slice())
    }

    /// Takes all of `input`.
    pub fn decode(input: &[u8]) -> (decoded: Self)
        ensures
            decoded@ == input@,
    {
        OpaqueTypes(copy_bytes(input))
    }
}

} // verus!
