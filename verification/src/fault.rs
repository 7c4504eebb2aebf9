//! The ways in which an encoding is given up.

use vstd::prelude::*;

verus! {

/// Why a constant was not encoded. No partial result comes with a fault.
#[derive(Clone, Copy, Debug, PartialEq, Eq, Structural)]
pub enum StorageFault {
    /// The constant is an array: arrays in storage have not been implemented.
    UnsupportedShape,
    /// The constant, its type and the context do not fit together: a fault of
    /// whatever produced them.
    InternalConsistency,
}

} // verus!
