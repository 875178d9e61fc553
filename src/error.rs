//! The error of pool construction.
use vstd::prelude::*;

verus! {

/// The error returned when a pool is asked for no workers: such a pool
/// could never do any work.
#[derive(Debug, Clone, Copy, PartialEq, Eq, Structural)]
pub struct PoolCreationError;

impl PoolCreationError {
    /// The human-readable description of this error.
    pub fn message(&self) -> (r: String)
        ensures
            r@ == "Pool Creation Failed!"@,
    {
        String::from_str("Pool Creation Failed!")
    }
}

} // verus!
