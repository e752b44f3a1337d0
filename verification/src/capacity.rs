//! How many entries a growable record holds, and how it grows.

use vstd::prelude::*;

verus! {

/// The entries that a record holds when it is created.
pub const INITIAL_CAPACITY: usize = 16;

/// The entries that one expansion adds.
pub const CAPACITY_STEP: usize = 16;

/// The most stake mints that a registry or a weight table holds.
pub const MAX_ST_MINTS: usize = 64;

/// The most vaults that a registry holds.
pub const MAX_VAULTS: usize = 64;

/// The most operators that vote in one epoch.
pub const MAX_OPERATORS: usize = 256;

/// The capacity after one expansion: a step more, but never more than `max`
/// nor less than before.
pub open spec fn spec_grown(capacity: usize, max: usize) -> usize {
    if capacity >= max {
        capacity
    } else if max - capacity <= CAPACITY_STEP {
        max
    } else {
        (capacity + CAPACITY_STEP) as usize
    }
}

/// The capacity after one expansion: a step more, but never more than `max`
/// nor less than before.
#[verifier::when_used_as_spec(spec_grown)]
pub fn grown(capacity: usize, max: usize) -> (r: usize)
    ensures
        r == spec_grown(capacity, max),
        capacity <= r,
        capacity <= max ==> r <= max,
{
    if capacity >= max {
        capacity
    } else if max - capacity <= CAPACITY_STEP {
        max
    } else {
        capacity + CAPACITY_STEP
    }
}

} // verus!
