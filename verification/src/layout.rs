//! How the one memory block is divided and how the shader sees it.

use vstd::prelude::*;
use crate::flags::{STAGE_COMPUTE, USAGE_STORAGE_BUFFER};

verus! {

/// The size in bytes of one element, a single-precision float.
pub const ELEMENT_SIZE: u64 = 4;

/// The binding slot of the input buffer.
pub const INPUT_BINDING: u32 = 0;

/// The binding slot of the output buffer.
pub const OUTPUT_BINDING: u32 = 1;

/// A byte range of the memory block.
#[derive(Debug, Clone, Copy, PartialEq, Eq, Structural)]
pub struct BufferView {
    pub offset: u64,
    pub size: u64,
}

impl BufferView {
    /// The first byte past the range.
    pub open spec fn end(self) -> int {
        self.offset + self.size
    }

    /// Whether the byte at offset `byte` of the block is in the range.
    pub open spec fn holds(self, byte: int) -> bool {
        self.offset <= byte < self.end()
    }

    /// Whether the two ranges have a byte in common.
    pub open spec fn overlaps(self, other: BufferView) -> bool {
        exists|byte: int| self.holds(byte) && other.holds(byte)
    }

    /// Whether the range lies within a block of `block_size` bytes.
    pub open spec fn fits(self, block_size: int) -> bool {
        self.end() <= block_size
    }
}

/// How a buffer is shared between queue families.
#[derive(Debug, Clone, Copy, PartialEq, Eq, Structural)]
pub enum SharingMode {
    Exclusive,
    Concurrent,
}

/// The type of a descriptor.
#[derive(Debug, Clone, Copy, PartialEq, Eq, Structural)]
pub enum DescriptorType {
    UniformBuffer,
    StorageBuffer,
}

/// One binding of the descriptor layout.
#[derive(Debug, Clone, Copy, PartialEq, Eq, Structural)]
pub struct Binding {
    pub binding: u32,
    pub descriptor_type: DescriptorType,
    pub descriptor_count: u32,
    pub stage_flags: u32,
}

/// The memory block, the two buffers carved from it and the bindings under
/// which the shader sees them.
#[derive(Debug)]
pub struct BufferLayout {
    pub allocation_size: u64,
    pub input: BufferView,
    pub output: BufferView,
    pub usage: u32,
    pub sharing_mode: SharingMode,
    pub bindings: Vec<Binding>,
}

/// The size in bytes of a buffer of `element_count` elements.
pub open spec fn view_size(element_count: u32) -> int {
    element_count * 4
}

/// The size in bytes of the memory block that holds both buffers.
pub open spec fn block_size(element_count: u32) -> int {
    2 * element_count * 4
}

/// The range of the input buffer: the first half of the block.
pub open spec fn input_view(element_count: u32) -> BufferView {
    BufferView { offset: 0, size: view_size(element_count) as u64 }
}

/// The range of the output buffer: the second half of the block.
pub open spec fn output_view(element_count: u32) -> BufferView {
    BufferView { offset: view_size(element_count) as u64, size: view_size(element_count) as u64 }
}

/// A storage buffer binding with one descriptor, visible to the compute
/// stage only.
pub open spec fn storage_binding(slot: u32) -> Binding {
    Binding {
        binding: slot,
        descriptor_type: DescriptorType::StorageBuffer,
        descriptor_count: 1,
        stage_flags: STAGE_COMPUTE,
    }
}

/// The descriptor layout: the input buffer at slot 0, the output buffer at
/// slot 1.
pub open spec fn descriptor_bindings() -> Seq<Binding> {
    seq![storage_binding(INPUT_BINDING), storage_binding(OUTPUT_BINDING)]
}

/// Computes the size in bytes of a buffer of `element_count` elements.
pub fn buffer_size(element_count: u32) -> (r: u64)
    ensures
        r == view_size(element_count),
{
    element_count as u64 * ELEMENT_SIZE
}

/// Computes the size in bytes of the memory block that holds both buffers.
pub fn allocation_size(element_count: u32) -> (r: u64)
    ensures
        r == block_size(element_count),
{
    2 * (element_count as u64) * ELEMENT_SIZE
}

impl BufferLayout {
    /// Lays out two buffers of `element_count` elements each in one block.
    pub fn new(element_count: u32) -> (layout: BufferLayout)
        ensures
            layout.allocation_size == block_size(element_count),
            layout.input == input_view(element_count),
            layout.output == output_view(element_count),
            layout.usage == USAGE_STORAGE_BUFFER,
            layout.sharing_mode == SharingMode::Exclusive,
            layout.bindings@ == descriptor_bindings(),
            !layout.input.overlaps(layout.output),
            layout.input.fits(layout.allocation_size as int),
            layout.output.fits(layout.allocation_size as int),
    {
        proof {
            lemma_views_partition_block(element_count);
        }
        let size = buffer_size(element_count);
        let mut bindings: Vec<Binding> = Vec::with_capacity(2);
        bindings.push(
            Binding {
                binding: INPUT_BINDING,
                descriptor_type: DescriptorType::StorageBuffer,
                descriptor_count: 1,
                stage_flags: STAGE_COMPUTE,
            },
        );
        bindings.push(
            Binding {
                binding: OUTPUT_BINDING,
                descriptor_type: DescriptorType::StorageBuffer,
                descriptor_count: 1,
                stage_flags: STAGE_COMPUTE,
            },
        );
        assert(bindings@ =~= descriptor_bindings());
        BufferLayout {
            allocation_size: allocation_size(element_count),
            input: BufferView { offset: 0, size },
            output: BufferView { offset: size, size },
            usage: USAGE_STORAGE_BUFFER,
            sharing_mode: SharingMode::Exclusive,
            bindings,
        }
    }
}

/// The two buffers never overlap, both lie within the block, they are of
/// the same size, and together they fill the block.
pub proof fn lemma_views_partition_block(element_count: u32)
    ensures
        !input_view(element_count).overlaps(output_view(element_count)),
        input_view(element_count).fits(block_size(element_count)),
        output_view(element_count).fits(block_size(element_count)),
        input_view(element_count).size == output_view(element_count).size,
        input_view(element_count).end() == output_view(element_count).offset,
        output_view(element_count).end() == block_size(element_count),
        block_size(element_count) <= u64::MAX,
{
}

/// What the descriptor pool is created with: room for one set with one
/// storage buffer descriptor per binding.
#[derive(Debug, Clone, Copy, PartialEq, Eq, Structural)]
pub struct DescriptorPoolPlan {
    pub max_sets: u32,
    pub descriptor_type: DescriptorType,
    pub descriptor_count: u32,
}

/// Which buffer a binding of the descriptor set points at: the whole of the
/// buffer, from its start.
#[derive(Debug, Clone, Copy, PartialEq, Eq, Structural)]
pub struct DescriptorWrite {
    pub binding: u32,
    pub descriptor_type: DescriptorType,
    pub buffer: u64,
    pub offset: u64,
    pub range: u64,
}

/// The writes that point slot 0 at the input buffer and slot 1 at the
/// output buffer.
pub open spec fn buffer_writes(input_buffer: u64, output_buffer: u64, size: u64) -> Seq<
    DescriptorWrite,
> {
    seq![
        DescriptorWrite {
            binding: INPUT_BINDING,
            descriptor_type: DescriptorType::StorageBuffer,
            buffer: input_buffer,
            offset: 0,
            range: size,
        },
        DescriptorWrite {
            binding: OUTPUT_BINDING,
            descriptor_type: DescriptorType::StorageBuffer,
            buffer: output_buffer,
            offset: 0,
            range: size,
        },
    ]
}

/// Plans the descriptor pool: one set, with one storage buffer descriptor
/// for each of the two bindings.
pub fn descriptor_pool() -> (plan: DescriptorPoolPlan)
    ensures
        plan == (DescriptorPoolPlan {
            max_sets: 1,
            descriptor_type: DescriptorType::StorageBuffer,
            descriptor_count: 2,
        }),
        plan.descriptor_count == descriptor_bindings().len(),
{
    DescriptorPoolPlan {
        max_sets: 1,
        descriptor_type: DescriptorType::StorageBuffer,
        descriptor_count: 2,
    }
}

/// Plans the writes that fill the descriptor set with the two buffers of
/// `element_count` elements.
pub fn descriptor_writes(element_count: u32, input_buffer: u64, output_buffer: u64) -> (writes: Vec<
    DescriptorWrite,
>)
    ensures
        writes@ == buffer_writes(input_buffer, output_buffer, view_size(element_count) as u64),
{
    let size = buffer_size(element_count);
    let mut writes: Vec<DescriptorWrite> = Vec::with_capacity(2);
    writes.push(
        DescriptorWrite {
            binding: INPUT_BINDING,
            descriptor_type: DescriptorType::StorageBuffer,
            buffer: input_buffer,
            offset: 0,
            range: size,
        },
    );
    writes.push(
        DescriptorWrite {
            binding: OUTPUT_BINDING,
            descriptor_type: DescriptorType::StorageBuffer,
            buffer: output_buffer,
            offset: 0,
            range: size,
        },
    );
    assert(writes@ =~= buffer_writes(input_buffer, output_buffer, view_size(element_count) as u64));
    writes
}

} // verus!
