//! A contract that holds one switch; handy as the target of an operation.

use vstd::prelude::*;

verus! {

/// A switch.
#[derive(Debug, Clone, Copy, PartialEq, Eq)]
pub struct Exec {
    value: bool,
}

impl Exec {
    /// Whether the switch is on.
    pub closed spec fn spec_get(&self) -> bool {
        self.value
    }

    /// A switch that is on if `init_value` is true.
    pub fn new(init_value: bool) -> (exec: Self)
        ensures
            exec.spec_get() == init_value,
    {
        Exec { value: init_value }
    }

    /// A switch that is off.
    pub fn default() -> (exec: Self)
        ensures
            !exec.spec_get(),
    {
        Exec::new(false)
    }

    /// Turns the switch over.
    pub fn flip(&mut self)
        ensures
            final(self).spec_get() == !old(self).spec_get(),
    {
        self.value = !self.value;
    }

    /// Whether the switch is on.
    pub fn get(&self) -> (value: bool)
        ensures
            value == self.spec_get(),
    {
        self.value
    }
}

} // verus!
