//! Capacity rules of the influence kernel.
//!
//! The kernel evaluates a field of weighted point sources held in parallel
//! buffers of a fixed number of slots. A caller declares how many leading
//! slots are active; the declared count is never trusted. This crate holds
//! the rule that turns a declared count into the number of slots a scan may
//! touch, and proves that the rule never admits a slot outside the buffers.

use vstd::prelude::*;

verus! {

/// Number of slots in each source buffer (strengths, x centers, y centers)
/// and in the scratch value buffer.
pub const MAX_LEN: usize = 1024;

/// Number of slots in the result buffer: steering x, steering y, magnitude.
pub const RESULT_LEN: usize = 3;

/// The number of leading slots that a declared count makes active: the count
/// itself while it fits in the buffers, the capacity otherwise.
pub open spec fn active_len(count: nat) -> nat {
    if count <= MAX_LEN {
        count
    } else {
        MAX_LEN as nat
    }
}

/// Whatever count is declared, every active slot lies inside a buffer of
/// `MAX_LEN` slots, and no slot is active that the caller did not declare.
pub proof fn lemma_active_slots_in_bounds(count: nat, slot: nat)
    requires
        slot < active_len(count),
    ensures
        slot < MAX_LEN,
        slot < count,
{
}

/// A declared count above the capacity activates exactly as many slots as
/// the capacity itself does: the excess is dropped without trace.
pub proof fn lemma_active_len_saturates(count: nat)
    requires
        count >= MAX_LEN,
    ensures
        active_len(count) == MAX_LEN,
        active_len(count) == active_len(MAX_LEN as nat),
{
}

/// Turns a declared count into the bound of a scan over the buffers.
///
/// The result is the smaller of the count and the capacity, so a scan over
/// `0..n` stays inside every buffer whatever the caller declared.
pub fn bounded_count(count: u32) -> (n: usize)
    ensures
        n == active_len(count as nat),
        n <= MAX_LEN,
        n <= count,
{
    let n: usize = count as usize;
    if n > MAX_LEN {
        MAX_LEN
    } else {
        n
    }
}

/// The fixed capacity of the buffers, as the host environment reads it.
pub fn max_len() -> (capacity: u32)
    ensures
        capacity == MAX_LEN,
        capacity == 1024,
{
    MAX_LEN as u32
}

} // verus!
