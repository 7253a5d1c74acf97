//! What the compute pipeline is built from.

use vstd::prelude::*;
use crate::error::Error;
use crate::flags::STAGE_COMPUTE;
use crate::shader::ShaderUnit;

verus! {

/// The result code with which the driver reports success.
pub const SUCCESS: i32 = 0;

/// The pipeline layout and the one compute stage.
#[derive(Debug)]
pub struct PipelinePlan {
    pub set_layouts: Vec<u64>,
    pub push_constant_range_count: u32,
    pub stage: u32,
    pub module: u64,
    pub entry_point: &'static str,
}

impl PipelinePlan {
    /// Plans a pipeline whose layout refers to exactly one descriptor
    /// layout, with no push constants, and whose single stage runs the
    /// shader module from its entry point.
    pub fn new(module: u64, descriptor_layout: u64) -> (plan: PipelinePlan)
        ensures
            plan.set_layouts@ == seq![descriptor_layout],
            plan.push_constant_range_count == 0,
            plan.stage == STAGE_COMPUTE,
            plan.module == module,
            plan.entry_point@ == ShaderUnit::entry_point_name(),
    {
        let mut set_layouts: Vec<u64> = Vec::with_capacity(1);
        set_layouts.push(descriptor_layout);
        assert(set_layouts@ =~= seq![descriptor_layout]);
        PipelinePlan {
            set_layouts,
            push_constant_range_count: 0,
            stage: STAGE_COMPUTE,
            module,
            entry_point: "main",
        }
    }
}

/// Judges the result code of the pipeline build. Succeeds exactly on plain
/// success; anything else is a pipeline build error with that code, and is
/// not retried.
pub fn check_pipeline_result(code: i32) -> (r: Result<(), Error>)
    ensures
        match r {
            Ok(_) => code == SUCCESS,
            Err(e) => code != SUCCESS && e == Error::PipelineBuild(code),
        },
{
    if code == SUCCESS {
        Ok(())
    } else {
        Err(Error::PipelineBuild(code))
    }
}

} // verus!
