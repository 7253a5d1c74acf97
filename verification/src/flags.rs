//! Bit sets reported by the driver, held as plain integers.

use vstd::prelude::*;

verus! {

/// Memory property: local to the device.
pub const MEMORY_DEVICE_LOCAL: u32 = 0x1;

/// Memory property: the host can map it.
pub const MEMORY_HOST_VISIBLE: u32 = 0x2;

/// Memory property: host writes are visible without an explicit flush.
pub const MEMORY_HOST_COHERENT: u32 = 0x4;

/// Memory property: cached on the host.
pub const MEMORY_HOST_CACHED: u32 = 0x8;

/// Queue capability: accepts graphics commands.
pub const QUEUE_GRAPHICS: u32 = 0x1;

/// Queue capability: accepts dispatch commands.
pub const QUEUE_COMPUTE: u32 = 0x2;

/// Queue capability: accepts transfer commands.
pub const QUEUE_TRANSFER: u32 = 0x4;

/// Shader stage: compute.
pub const STAGE_COMPUTE: u32 = 0x20;

/// Buffer usage: storage buffer.
pub const USAGE_STORAGE_BUFFER: u32 = 0x20;

/// Command buffer usage: submitted once, then reset or freed.
pub const USAGE_ONE_TIME_SUBMIT: u32 = 0x1;

/// `have` is a superset of `want`: every bit set in `want` is set in `have`.
pub open spec fn is_superset(have: u32, want: u32) -> bool {
    have & want == want
}

/// Tests whether every bit of `want` is set in `have`.
pub fn contains(have: u32, want: u32) -> (r: bool)
    ensures
        r == is_superset(have, want),
{
    have & want == want
}

/// A set contains the union of two sets exactly when it contains both.
pub proof fn lemma_superset_union(have: u32, a: u32, b: u32)
    ensures
        is_superset(have, a | b) <==> is_superset(have, a) && is_superset(have, b),
{
    assert((have & (a | b) == (a | b)) <==> (have & a == a) && (have & b == b)) by (bit_vector);
}

} // verus!
