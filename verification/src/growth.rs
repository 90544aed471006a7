//! The capacity policy: how far a sequence grows when it runs out of room.

use vstd::prelude::*;
use crate::error::ReserveError;

verus! {

/// The smallest capacity that growth ever produces.
pub const MIN_GROWN_CAPACITY: usize = 4;

/// Twice `cap`, held to the range of `usize`.
pub open spec fn doubled(cap: nat) -> nat {
    if 2 * cap > usize::MAX {
        usize::MAX as nat
    } else {
        2 * cap
    }
}

/// The capacity chosen when `cap` slots no longer suffice and `needed` are
/// asked for: the largest of `needed`, twice `cap`, and
/// [`MIN_GROWN_CAPACITY`].
pub open spec fn grown_capacity(cap: nat, needed: nat) -> nat {
    let amortized = if doubled(cap) < MIN_GROWN_CAPACITY {
        MIN_GROWN_CAPACITY as nat
    } else {
        doubled(cap)
    };
    if needed > amortized {
        needed
    } else {
        amortized
    }
}

/// The capacity of a sequence that held `cap` slots once room for `needed`
/// elements has been asked for: unchanged where `cap` suffices, grown
/// otherwise.
pub open spec fn capacity_for(cap: nat, needed: nat) -> nat {
    if needed <= cap {
        cap
    } else {
        grown_capacity(cap, needed)
    }
}

/// Growth reaches what was asked for, never gives capacity up, and at least
/// doubles the capacity while twice the capacity fits in a `usize`.
pub proof fn lemma_growth_amortizes(cap: nat, needed: nat)
    requires
        cap <= usize::MAX,
        needed <= usize::MAX,
    ensures
        capacity_for(cap, needed) >= needed,
        capacity_for(cap, needed) >= cap,
        capacity_for(cap, needed) <= usize::MAX,
        needed > cap ==> capacity_for(cap, needed) >= doubled(cap),
        needed > cap ==> capacity_for(cap, needed) >= MIN_GROWN_CAPACITY,
{
}

/// Computes [`capacity_for`].
pub fn next_capacity(cap: usize, needed: usize) -> (c: usize)
    ensures
        c == capacity_for(cap as nat, needed as nat),
        c >= needed,
        c >= cap,
{
    if needed <= cap {
        return cap;
    }
    let twice: usize = if cap > usize::MAX / 2 {
        usize::MAX
    } else {
        cap * 2
    };
    let amortized: usize = if twice < MIN_GROWN_CAPACITY {
        MIN_GROWN_CAPACITY
    } else {
        twice
    };
    if needed > amortized {
        needed
    } else {
        amortized
    }
}

/// What a request for room for `additional` more elements comes to, before
/// any storage is asked for, in a sequence of `len` elements and `cap` slots.
pub open spec fn planned_capacity(cap: nat, len: nat, additional: nat) -> Result<nat, ReserveError> {
    if len + additional > usize::MAX {
        Err(ReserveError::CapacityOverflow)
    } else {
        Ok(capacity_for(cap, len + additional))
    }
}

/// Computes [`planned_capacity`]: the capacity to reach, or the overflow.
pub fn plan_reservation(cap: usize, len: usize, additional: usize) -> (plan: Result<usize, ReserveError>)
    ensures
        match plan {
            Ok(target) => planned_capacity(cap as nat, len as nat, additional as nat) == Ok::<nat, ReserveError>(target as nat),
            Err(e) => planned_capacity(cap as nat, len as nat, additional as nat) == Err::<nat, ReserveError>(e),
        },
{
    match len.checked_add(additional) {
        None => Err(ReserveError::CapacityOverflow),
        Some(needed) => Ok(next_capacity(cap, needed)),
    }
}

/// The capacity after the allocator has answered a request to reach
/// `target`: `target` where it provided the storage, a failure where it did
/// not.
pub fn settle_reservation(target: usize, allocated: bool) -> (r: Result<usize, ReserveError>)
    ensures
        allocated ==> r == Ok::<usize, ReserveError>(target),
        !allocated ==> r == Err::<usize, ReserveError>(ReserveError::AllocationFailed),
{
    if allocated {
        Ok(target)
    } else {
        Err(ReserveError::AllocationFailed)
    }
}

} // verus!
