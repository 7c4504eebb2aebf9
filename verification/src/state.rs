//! The index of a storage variable.

use vstd::prelude::*;

verus! {

/// Identifies one variable declared in a contract's storage section.
#[derive(Clone, Copy, Debug, PartialEq, Eq, Structural)]
pub struct StateIndex(pub usize);

impl View for StateIndex {
    type V = nat;

    open spec fn view(&self) -> nat {
        self.0 as nat
    }
}

impl StateIndex {
    /// Wraps a raw index.
    pub fn new(raw: usize) -> (ix: Self)
        ensures
            ix@ == raw,
    {
        StateIndex(raw)
    }

    /// The raw index.
    pub fn to_usize(&self) -> (raw: usize)
        ensures
            raw == self@,
    {
        self.0
    }
}

} // verus!
