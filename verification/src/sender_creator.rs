//! Deploys the account of a sender from the code an operation brings along.

use vstd::prelude::*;
use crate::env::{zero_account, AccountId};
use crate::exec::{OpaqueTypes, Transaction};
use crate::host::Host;

verus! {

/// Creates sender accounts.
#[derive(Debug, Clone, Copy, PartialEq, Eq)]
pub struct SenderCreator;

/// The factory that an operation's code names: its first 32 bytes.
pub open spec fn spec_factory(init_code: Seq<u8>) -> Seq<u8> {
    init_code.subrange(0, 32)
}

/// What the factory is called with: what follows the first 32 bytes.
pub open spec fn spec_init_call_data(init_code: Seq<u8>) -> Seq<u8> {
    init_code.subrange(32, init_code.len() as int)
}

/// The account a factory's answer names: the answer itself if the factory
/// returned 32 bytes, the zero account if the call failed or returned
/// anything else.
pub open spec fn spec_created(answer: Result<OpaqueTypes, Vec<u8>>) -> Seq<u8> {
    match answer {
        Ok(returned) => if returned@.len() == 32 {
            returned@
        } else {
            Seq::new(32, |i: int| 0u8)
        },
        Err(_) => Seq::new(32, |i: int| 0u8),
    }
}

impl SenderCreator {
    /// The creator.
    pub fn new() -> Self {
        SenderCreator
    }

    /// Splits the code an operation brings along into the factory's account
    /// and the data the factory is called with.
    pub fn split_init_code(init_code: &Vec<u8>) -> (parts: (AccountId, Vec<u8>))
        requires
            init_code@.len() >= 32,
        ensures
            parts.0@ == spec_factory(init_code@),
            parts.1@ == spec_init_call_data(init_code@),
    {
        let mut factory = [0u8; 32];
        let mut i: usize = 0;
        while i < 32
            invariant
                i <= 32,
                init_code@.len() >= 32,
                forall|j: int| 0 <= j < i ==> factory@[j] == init_code@[j],
            decreases 32 - i,
        {
            factory[i] = init_code[i];
            i += 1;
        }
        let mut init_call_data: Vec<u8> = Vec::new();
        while i < init_code.len()
            invariant
                32 <= i <= init_code@.len(),
                init_call_data@ == init_code@.subrange(32, i as int),
            decreases init_code@.len() - i,
        {
            init_call_data.push(init_code[i]);
            i += 1;
            assert(init_call_data@ =~= init_code@.subrange(32, i as int));
        }
        assert(factory@ =~= spec_factory(init_code@));
        (factory, init_call_data)
    }

    /// Reads the account that a factory's answer names.
    pub fn created_account(answer: &Result<OpaqueTypes, Vec<u8>>) -> (sender: AccountId)
        ensures
            sender@ == spec_created(*answer),
    {
        let mut sender = zero_account();
        assert(sender@ =~= Seq::new(32, |i: int| 0u8));
        match answer {
            Ok(returned) => {
                if returned.0.len() == 32 {
                    let mut i: usize = 0;
                    while i < 32
                        invariant
                            i <= 32,
                            returned@.len() == 32,
                            forall|j: int| 0 <= j < i ==> sender@[j] == returned@[j],
                        decreases 32 - i,
                    {
                        sender[i] = returned.0[i];
                        i += 1;
                    }
                    assert(sender@ =~= returned@);
                }
            },
            Err(_) => {},
        }
        sender
    }

    /// Has the factory that `init_code` names create the sender's account,
    /// with all the gas that is left, and answers with the account. What the
    /// factory answers is the host's to say; the zero account stands for a
    /// failure.
    pub fn create_sender<H: Host>(&self, host: &mut H, init_code: &Vec<u8>) -> (sender: AccountId)
        requires
            init_code@.len() >= 32,
    {
        let gas_limit = host.gas_left();
        let answer = host.invoke(SenderCreator::factory_call(init_code, gas_limit));
        SenderCreator::created_account(&answer)
    }

    /// The call that has a sender's account created: to the factory that
    /// `init_code` names, under the all-zero selector, with what follows the
    /// factory's account as its data, within `gas_limit`, with no value sent
    /// along.
    pub fn factory_call(init_code: &Vec<u8>, gas_limit: u64) -> (call: Transaction)
        requires
            init_code@.len() >= 32,
        ensures
            call.callee@ == spec_factory(init_code@),
            call.selector@ == Seq::new(4, |i: int| 0u8),
            call.input@ == spec_init_call_data(init_code@),
            call.gas_limit == gas_limit,
            call.transferred_value == 0,
            !call.allow_reentry,
    {
        let (factory, init_call_data) = SenderCreator::split_init_code(init_code);
        let selector = [0u8; 4];
        assert(selector@ =~= Seq::new(4, |i: int| 0u8));
        Transaction::new(factory, selector, init_call_data, gas_limit)
    }
}

} // verus!
