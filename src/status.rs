//! Errors reported to the caller of a registration.

use vstd::prelude::*;

verus! {

/// Why a registration failed.
#[derive(Debug, Clone, Copy, PartialEq, Eq, Structural)]
pub enum UStatus {
    /// Every slot of the fixed table is already bound.
    CapacityExceeded,
    /// The identifier that was issued has no entry point to bind.
    InvalidSlot,
}

} // verus!
