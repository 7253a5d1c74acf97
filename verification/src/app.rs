//! The run: its parameters, and the plan of each of its steps.

use vstd::prelude::*;
use crate::commands::{CommandPoolPlan, CommandSequence, dispatch_recording};
use crate::engine::ExecutionEngine;
use crate::error::{Error, no_memory_type};
use crate::flags::{
    MEMORY_HOST_COHERENT,
    MEMORY_HOST_VISIBLE,
    STAGE_COMPUTE,
    USAGE_STORAGE_BUFFER,
};
use crate::layout::{
    allocation_size,
    BufferLayout,
    BufferView,
    SharingMode,
    block_size,
    buffer_size,
    descriptor_bindings,
    input_view,
    output_view,
};
use crate::memory::{
    get_best_memory_type_index,
    is_first_qualifying,
    none_qualifies,
    MemoryProperties,
};
use crate::pipeline::PipelinePlan;
use crate::shader::{create_shader_module, is_word_aligned, ShaderUnit};

verus! {

/// The memory properties the block must have: the host can map it, and host
/// writes need no flush.
pub const HOST_MEMORY_FLAGS: u32 = MEMORY_HOST_VISIBLE | MEMORY_HOST_COHERENT;

/// What the memory block is allocated with.
#[derive(Debug, Clone, Copy, PartialEq, Eq, Structural)]
pub struct AllocationPlan {
    pub size: u64,
    pub memory_type_index: u32,
}

/// One run on one device: how many elements each buffer holds, the queue
/// family and the memory type it uses, and its shader.
#[derive(Debug)]
pub struct App {
    pub element_count: u32,
    pub queue_index: u32,
    pub memory_index: u32,
    pub shader: ShaderUnit,
}

impl App {
    /// Sets the run up on the selected device: loads the shader binary,
    /// then resolves the memory type for a host-visible, host-coherent
    /// block that holds both buffers.
    ///
    /// Fails with a format error exactly when the binary is not a whole
    /// number of code words; else with a suitability error exactly when no
    /// memory type qualifies.
    pub fn create(
        element_count: u32,
        queue_index: u32,
        bytecode: &[u8],
        memory: &MemoryProperties,
    ) -> (r: Result<App, Error>)
        requires
            memory.valid(),
            block_size(element_count) <= usize::MAX,
        ensures
            match r {
                Ok(app) => {
                    &&& app.element_count == element_count
                    &&& app.queue_index == queue_index
                    &&& is_word_aligned(bytecode@.len())
                    &&& app.shader.code() == bytecode@
                    &&& is_first_qualifying(
                        memory.memory_types@,
                        memory.memory_heaps@,
                        HOST_MEMORY_FLAGS,
                        block_size(element_count),
                        app.memory_index as int,
                    )
                },
                Err(Error::Format) => !is_word_aligned(bytecode@.len()),
                Err(Error::Suitability(e)) => {
                    &&& is_word_aligned(bytecode@.len())
                    &&& e.0@ == no_memory_type()
                    &&& none_qualifies(
                        memory.memory_types@,
                        memory.memory_heaps@,
                        HOST_MEMORY_FLAGS,
                        block_size(element_count),
                    )
                },
                Err(_) => false,
            },
    {
        let shader = match create_shader_module(bytecode) {
            Ok(unit) => unit,
            Err(e) => {
                return Err(e);
            },
        };
        let desired_size = allocation_size(element_count) as usize;
        match get_best_memory_type_index(memory, HOST_MEMORY_FLAGS, desired_size) {
            Ok(memory_index) => Ok(App { element_count, queue_index, memory_index, shader }),
            Err(e) => Err(Error::Suitability(e)),
        }
    }

    /// Plans the allocation of the memory block.
    pub fn allocation(&self) -> (plan: AllocationPlan)
        ensures
            plan.size == block_size(self.element_count),
            plan.memory_type_index == self.memory_index,
    {
        AllocationPlan {
            size: allocation_size(self.element_count),
            memory_type_index: self.memory_index,
        }
    }

    /// Plans the host write of the input values: the range of the block to
    /// map, which is the input buffer's. Element `i` of it is to hold the
    /// value `i / 2`.
    pub fn populate_buffer(&self) -> (range: BufferView)
        ensures
            range == input_view(self.element_count),
    {
        BufferView { offset: 0, size: buffer_size(self.element_count) }
    }

    /// Plans the two buffers and the descriptor layout.
    pub fn bind_buffer_layout(&self) -> (layout: BufferLayout)
        ensures
            layout.allocation_size == block_size(self.element_count),
            layout.input == input_view(self.element_count),
            layout.output == output_view(self.element_count),
            layout.usage == USAGE_STORAGE_BUFFER,
            layout.sharing_mode == SharingMode::Exclusive,
            layout.bindings@ == descriptor_bindings(),
            !layout.input.overlaps(layout.output),
            layout.input.fits(layout.allocation_size as int),
            layout.output.fits(layout.allocation_size as int),
    {
        BufferLayout::new(self.element_count)
    }

    /// Plans the pipeline layout and the compute pipeline for the created
    /// shader module and descriptor layout.
    pub fn create_pipeine_with_layout(&self, compute_shader: u64, descriptor_layout: u64) -> (plan:
        PipelinePlan)
        ensures
            plan.set_layouts@ == seq![descriptor_layout],
            plan.push_constant_range_count == 0,
            plan.stage == STAGE_COMPUTE,
            plan.module == compute_shader,
            plan.entry_point@ == ShaderUnit::entry_point_name(),
    {
        PipelinePlan::new(compute_shader, descriptor_layout)
    }

    /// Plans the command pool, on the run's queue family, and its one
    /// command buffer.
    pub fn create_command_pool_and_buffer(&self) -> (plan: CommandPoolPlan)
        ensures
            plan == CommandPoolPlan::for_family(self.queue_index),
    {
        CommandPoolPlan::new(self.queue_index)
    }

    /// Records the one dispatch, one workgroup per element.
    pub fn record_commands_to_buffer(
        &self,
        pipeline: u64,
        pipeline_layout: u64,
        descriptor_set: u64,
    ) -> (sequence: CommandSequence)
        ensures
            sequence@ == dispatch_recording(
                pipeline,
                pipeline_layout,
                descriptor_set,
                self.element_count,
            ),
    {
        CommandSequence::record(pipeline, pipeline_layout, descriptor_set, self.element_count)
    }

    /// Plans the readback: the range of the block to map, which is the
    /// output buffer's. There is none before the submission has completed.
    pub fn read_back(&self, engine: &ExecutionEngine) -> (r: Option<BufferView>)
        ensures
            r == if engine.state() is Completed {
                Some(output_view(self.element_count))
            } else {
                None
            },
    {
        if engine.can_read_back() {
            let size = buffer_size(self.element_count);
            Some(BufferView { offset: size, size })
        } else {
            None
        }
    }
}

} // verus!
