//! Memory type resolution.

use vstd::prelude::*;
use crate::error::{SuitabilityError, no_memory_type};
use crate::flags::{contains, is_superset};

verus! {

/// The most memory types a device reports.
pub const MAX_MEMORY_TYPES: usize = 32;

/// The most memory heaps a device reports.
pub const MAX_MEMORY_HEAPS: usize = 16;

/// One memory type: its property flags and the heap it allocates from.
#[derive(Debug, Clone, Copy)]
pub struct MemoryType {
    pub property_flags: u32,
    pub heap_index: u32,
}

/// One memory heap: its capacity in bytes and its flags.
#[derive(Debug, Clone, Copy)]
pub struct MemoryHeap {
    pub size: u64,
    pub flags: u32,
}

/// The memory types and heaps of one device, in the order the driver
/// reported them.
#[derive(Debug)]
pub struct MemoryProperties {
    pub memory_types: Vec<MemoryType>,
    pub memory_heaps: Vec<MemoryHeap>,
}

/// Whether the type at index `i` has all of `desired_flags` and sits on a
/// heap that holds at least `desired_size` bytes.
pub open spec fn qualifies(
    types: Seq<MemoryType>,
    heaps: Seq<MemoryHeap>,
    desired_flags: u32,
    desired_size: int,
    i: int,
) -> bool {
    &&& 0 <= i < types.len()
    &&& types[i].heap_index < heaps.len()
    &&& is_superset(types[i].property_flags, desired_flags)
    &&& desired_size <= heaps[types[i].heap_index as int].size
}

impl MemoryProperties {
    /// The counts are within what a device may report and every type names
    /// one of the heaps.
    pub open spec fn valid(&self) -> bool {
        &&& self.memory_types@.len() <= MAX_MEMORY_TYPES
        &&& self.memory_heaps@.len() <= MAX_MEMORY_HEAPS
        &&& forall|i: int|
            0 <= i < self.memory_types@.len() ==> (#[trigger] self.memory_types@[i]).heap_index
                < self.memory_heaps@.len()
    }

    /// Checks [`MemoryProperties::valid`].
    pub fn is_valid(&self) -> (r: bool)
        ensures
            r == self.valid(),
    {
        if self.memory_types.len() > MAX_MEMORY_TYPES || self.memory_heaps.len()
            > MAX_MEMORY_HEAPS {
            return false;
        }
        let mut i: usize = 0;
        while i < self.memory_types.len()
            invariant
                i <= self.memory_types@.len(),
                forall|j: int|
                    0 <= j < i ==> (#[trigger] self.memory_types@[j]).heap_index
                        < self.memory_heaps@.len(),
            decreases self.memory_types@.len() - i,
        {
            if self.memory_types[i].heap_index as usize >= self.memory_heaps.len() {
                return false;
            }
            i += 1;
        }
        true
    }
}

/// Whether `i` is the lowest index that [`qualifies`].
pub open spec fn is_first_qualifying(
    types: Seq<MemoryType>,
    heaps: Seq<MemoryHeap>,
    desired_flags: u32,
    desired_size: int,
    i: int,
) -> bool {
    &&& qualifies(types, heaps, desired_flags, desired_size, i)
    &&& forall|j: int| 0 <= j < i ==> !qualifies(types, heaps, desired_flags, desired_size, j)
}

/// Whether no index [`qualifies`].
pub open spec fn none_qualifies(
    types: Seq<MemoryType>,
    heaps: Seq<MemoryHeap>,
    desired_flags: u32,
    desired_size: int,
) -> bool {
    forall|j: int| !qualifies(types, heaps, desired_flags, desired_size, j)
}

/// Finds the first memory type, in the driver's order, that has all of
/// `desired_flags` and whose heap holds at least `desired_size` bytes.
///
/// Fails exactly when no type qualifies.
pub fn get_best_memory_type_index(
    properties: &MemoryProperties,
    desired_flags: u32,
    desired_size: usize,
) -> (r: Result<u32, SuitabilityError>)
    requires
        properties.valid(),
    ensures
        match r {
            Ok(index) => is_first_qualifying(
                properties.memory_types@,
                properties.memory_heaps@,
                desired_flags,
                desired_size as int,
                index as int,
            ),
            Err(e) => {
                &&& e.0@ == no_memory_type()
                &&& none_qualifies(
                    properties.memory_types@,
                    properties.memory_heaps@,
                    desired_flags,
                    desired_size as int,
                )
            },
        },
{
    let mut i: usize = 0;
    while i < properties.memory_types.len()
        invariant
            properties.valid(),
            i <= properties.memory_types@.len(),
            forall|j: int|
                0 <= j < i ==> !qualifies(
                    properties.memory_types@,
                    properties.memory_heaps@,
                    desired_flags,
                    desired_size as int,
                    j,
                ),
        decreases properties.memory_types@.len() - i,
    {
        let memory_type = properties.memory_types[i];
        let memory_heap = properties.memory_heaps[memory_type.heap_index as usize];
        let right_properties = contains(memory_type.property_flags, desired_flags);
        let right_size = desired_size as u64 <= memory_heap.size;
        if right_properties && right_size {
            return Ok(i as u32);
        }
        i += 1;
    }
    Err(SuitabilityError("no suitable memory type"))
}

/// Of two memory types that both qualify, resolution never picks the one
/// with the higher index: the index it returns is at most that of any
/// qualifying type.
pub proof fn lemma_lowest_index_chosen(
    types: Seq<MemoryType>,
    heaps: Seq<MemoryHeap>,
    desired_flags: u32,
    desired_size: int,
    chosen: int,
    other: int,
)
    requires
        is_first_qualifying(types, heaps, desired_flags, desired_size, chosen),
        qualifies(types, heaps, desired_flags, desired_size, other),
    ensures
        chosen <= other,
{
}

/// Resolution has one answer: two indices that are both the first to
/// qualify are the same index, and no index is the first to qualify when
/// none qualifies.
pub proof fn lemma_resolution_unique(
    types: Seq<MemoryType>,
    heaps: Seq<MemoryHeap>,
    desired_flags: u32,
    desired_size: int,
    a: int,
    b: int,
)
    requires
        is_first_qualifying(types, heaps, desired_flags, desired_size, a),
    ensures
        is_first_qualifying(types, heaps, desired_flags, desired_size, b) ==> a == b,
        !none_qualifies(types, heaps, desired_flags, desired_size),
{
}

/// Resolution succeeds whenever some type qualifies: then there is a first
/// one.
pub proof fn lemma_resolution_total(
    types: Seq<MemoryType>,
    heaps: Seq<MemoryHeap>,
    desired_flags: u32,
    desired_size: int,
    witness: int,
)
    requires
        qualifies(types, heaps, desired_flags, desired_size, witness),
    ensures
        exists|i: int|
            0 <= i <= witness && is_first_qualifying(types, heaps, desired_flags, desired_size, i),
    decreases witness,
{
    if exists|j: int| 0 <= j < witness && qualifies(types, heaps, desired_flags, desired_size, j) {
        let j = choose|j: int|
            0 <= j < witness && qualifies(types, heaps, desired_flags, desired_size, j);
        lemma_resolution_total(types, heaps, desired_flags, desired_size, j);
    } else {
        assert(is_first_qualifying(types, heaps, desired_flags, desired_size, witness));
    }
}

} // verus!
