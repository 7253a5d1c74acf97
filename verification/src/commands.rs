//! The command pool and the one recording.

use vstd::prelude::*;
use crate::flags::USAGE_ONE_TIME_SUBMIT;

verus! {

/// The pipeline type a command binds to.
#[derive(Debug, Clone, Copy, PartialEq, Eq, Structural)]
pub enum BindPoint {
    Graphics,
    Compute,
}

/// The level of a command buffer.
#[derive(Debug, Clone, Copy, PartialEq, Eq, Structural)]
pub enum CommandBufferLevel {
    Primary,
    Secondary,
}

/// What the command pool and its buffers are created with.
#[derive(Debug, Clone, Copy, PartialEq, Eq, Structural)]
pub struct CommandPoolPlan {
    pub queue_family_index: u32,
    pub level: CommandBufferLevel,
    pub command_buffer_count: u32,
}

impl CommandPoolPlan {
    /// A pool on the given queue family with one primary command buffer.
    pub open spec fn for_family(queue_family_index: u32) -> CommandPoolPlan {
        CommandPoolPlan {
            queue_family_index,
            level: CommandBufferLevel::Primary,
            command_buffer_count: 1,
        }
    }

    /// Plans a pool on the given queue family with one primary command
    /// buffer.
    pub fn new(queue_family_index: u32) -> (plan: CommandPoolPlan)
        ensures
            plan == Self::for_family(queue_family_index),
    {
        CommandPoolPlan {
            queue_family_index,
            level: CommandBufferLevel::Primary,
            command_buffer_count: 1,
        }
    }
}

/// One step of a recording.
#[derive(Debug, Clone, Copy, PartialEq, Eq, Structural)]
pub enum Command {
    /// Begins the recording with the given usage flags.
    Begin { flags: u32 },
    /// Binds a pipeline.
    BindPipeline { bind_point: BindPoint, pipeline: u64 },
    /// Binds one descriptor set as set number `first_set`, with no dynamic
    /// offsets.
    BindDescriptorSet { bind_point: BindPoint, layout: u64, first_set: u32, descriptor_set: u64 },
    /// Dispatches a grid of workgroups.
    Dispatch { x: u32, y: u32, z: u32 },
    /// Ends the recording.
    End,
}

/// The recording of one dispatch: begin as a one-time submission, bind the
/// pipeline, bind the descriptor set, dispatch one workgroup per element,
/// end.
pub open spec fn dispatch_recording(
    pipeline: u64,
    pipeline_layout: u64,
    descriptor_set: u64,
    element_count: u32,
) -> Seq<Command> {
    seq![
        Command::Begin { flags: USAGE_ONE_TIME_SUBMIT },
        Command::BindPipeline { bind_point: BindPoint::Compute, pipeline },
        Command::BindDescriptorSet {
            bind_point: BindPoint::Compute,
            layout: pipeline_layout,
            first_set: 0,
            descriptor_set,
        },
        Command::Dispatch { x: element_count, y: 1, z: 1 },
        Command::End,
    ]
}

/// A recording. Once made it cannot be changed.
#[derive(Debug)]
pub struct CommandSequence {
    commands: Vec<Command>,
}

impl CommandSequence {
    /// The commands, in the order they are recorded.
    pub closed spec fn view(&self) -> Seq<Command> {
        self.commands@
    }

    /// Records one dispatch over `element_count` elements.
    pub fn record(pipeline: u64, pipeline_layout: u64, descriptor_set: u64, element_count: u32) -> (r:
        CommandSequence)
        ensures
            r@ == dispatch_recording(pipeline, pipeline_layout, descriptor_set, element_count),
    {
        let mut commands: Vec<Command> = Vec::with_capacity(5);
        commands.push(Command::Begin { flags: USAGE_ONE_TIME_SUBMIT });
        commands.push(Command::BindPipeline { bind_point: BindPoint::Compute, pipeline });
        commands.push(
            Command::BindDescriptorSet {
                bind_point: BindPoint::Compute,
                layout: pipeline_layout,
                first_set: 0,
                descriptor_set,
            },
        );
        commands.push(Command::Dispatch { x: element_count, y: 1, z: 1 });
        commands.push(Command::End);
        assert(commands@ =~= dispatch_recording(
            pipeline,
            pipeline_layout,
            descriptor_set,
            element_count,
        ));
        CommandSequence { commands }
    }

    /// The commands, in the order they are recorded.
    pub fn commands(&self) -> (r: &Vec<Command>)
        ensures
            r@ == self@,
    {
        &self.commands
    }
}

} // verus!
