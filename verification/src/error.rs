use vstd::prelude::*;

verus! {

/// An index handed to a positional operation lay outside the bound that the
/// operation accepts.
#[derive(Debug, Clone, Copy, PartialEq, Eq, Structural)]
pub struct OutOfRange {
    /// The index that was refused.
    pub index: usize,
    /// The length of the sequence when the index was refused.
    pub len: usize,
}

/// Why a request for more capacity was not met.
#[derive(Debug, Clone, Copy, PartialEq, Eq, Structural)]
pub enum ReserveError {
    /// The requested length does not fit in a `usize`.
    CapacityOverflow,
    /// The allocator did not provide the storage.
    AllocationFailed,
}

} // verus!
