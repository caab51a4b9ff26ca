//! A sponsor's policy that pays for every operation for a while.

use vstd::prelude::*;
use crate::env::{Balance, Timestamp};
use crate::base_paymaster::BasePaymasterTrait;
use crate::error::Error;
use crate::helpers::{Aggregator, ValidationData};
use crate::host::PostOpMode;
use crate::user_operation::UserOperation;

verus! {

/// For how long after it was validated a sponsored operation stays valid.
pub const SPONSORSHIP_WINDOW: Timestamp = 5000;

/// A policy that pays for every operation.
#[derive(Debug, Clone, Copy, PartialEq, Eq)]
pub struct SimplePaymaster;

impl SimplePaymaster {
    /// The policy.
    pub fn new() -> Self {
        SimplePaymaster
    }

    /// Does nothing.
    pub fn gi(&self) {
    }

    /// What the policy answers at the instant `now`: no context, no
    /// aggregator, and a window from `now` until 5000 later. An instant so
    /// late that the window would end beyond the clock gives `GasValuesOverflow`.
    pub open spec fn spec_answer(now: Timestamp) -> Option<ValidationData> {
        if now + SPONSORSHIP_WINDOW > Timestamp::MAX {
            None
        } else {
            Some(
                ValidationData {
                    aggregator: Aggregator::VerifiedBySelf,
                    valid_after: now,
                    valid_until: (now + SPONSORSHIP_WINDOW) as Timestamp,
                },
            )
        }
    }
}

impl BasePaymasterTrait for SimplePaymaster {
    fn validate_paymaster_user_op(
        &self,
        _user_op: &UserOperation,
        _user_op_hash: [u8; 32],
        _max_cost: Balance,
        now: Timestamp,
    ) -> (done: Result<(Vec<u8>, ValidationData), Error>)
        ensures
            match SimplePaymaster::spec_answer(now) {
                Some(data) => done matches Ok(answer) && answer.0@.len() == 0 && answer.1 == data,
                None => done == Err::<(Vec<u8>, ValidationData), Error>(Error::GasValuesOverflow),
            },
    {
        let valid_until = match now.checked_add(SPONSORSHIP_WINDOW) {
            Some(until) => until,
            None => {
                return Err(Error::GasValuesOverflow);
            },
        };
        Ok(
            (
                Vec::new(),
                ValidationData {
                    aggregator: Aggregator::VerifiedBySelf,
                    valid_after: now,
                    valid_until,
                },
            ),
        )
    }

    fn post_op(&self, _mode: PostOpMode, _context: &Vec<u8>, _actual_gas_cost: Balance) -> (done:
        Result<(), Error>)
        ensures
            done is Ok,
    {
        Ok(())
    }
}

} // verus!
