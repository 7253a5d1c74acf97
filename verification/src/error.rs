//! Error kinds. Every one of them is fatal for the run.

use vstd::prelude::*;

verus! {

/// No device, queue family or memory type meets the constraints. The payload
/// says which one was looked for.
#[derive(Debug, Clone, Copy)]
pub struct SuitabilityError(pub &'static str);

/// What the payload of a [`SuitabilityError`] reads when no device qualifies.
pub open spec fn no_device() -> Seq<char> {
    "no suitable device"@
}

/// What the payload reads when no queue family accepts dispatches.
pub open spec fn no_compute_queue() -> Seq<char> {
    "no suitable compute queue"@
}

/// What the payload reads when no memory type qualifies.
pub open spec fn no_memory_type() -> Seq<char> {
    "no suitable memory type"@
}

impl SuitabilityError {
    /// The text that names what was missing.
    pub fn description(&self) -> (text: &'static str)
        ensures
            text@ == self.0@,
    {
        self.0
    }
}

/// The ways a run can fail.
#[derive(Debug, Clone, Copy)]
pub enum Error {
    /// Neither selection mode was specified.
    Configuration,
    /// Nothing on this machine meets the constraints.
    Suitability(SuitabilityError),
    /// The shader bytecode is not a whole number of 4-byte words.
    Format,
    /// The driver rejected the shader and layout combination; holds its
    /// result code.
    PipelineBuild(i32),
    /// The fence was not signaled within the bound.
    Timeout,
    /// Some other driver call failed; holds its result code.
    Driver(i32),
}

impl Error {
    /// Whether two errors are of the same kind and carry the same text or
    /// result code.
    pub open spec fn same_as(self, other: Error) -> bool {
        match (self, other) {
            (Error::Configuration, Error::Configuration) => true,
            (Error::Suitability(a), Error::Suitability(b)) => a.0@ == b.0@,
            (Error::Format, Error::Format) => true,
            (Error::PipelineBuild(a), Error::PipelineBuild(b)) => a == b,
            (Error::Timeout, Error::Timeout) => true,
            (Error::Driver(a), Error::Driver(b)) => a == b,
            _ => false,
        }
    }

    /// A one-line diagnostic for the failure.
    pub fn message(&self) -> (text: &'static str)
        ensures
            text@ == match *self {
                Error::Configuration => "neither selection mode specified"@,
                Error::Suitability(e) => e.0@,
                Error::Format => "misaligned shader bytecode"@,
                Error::PipelineBuild(_) => "pipeline build failed"@,
                Error::Timeout => "fence wait timed out"@,
                Error::Driver(_) => "driver call failed"@,
            },
    {
        match self {
            Error::Configuration => "neither selection mode specified",
            Error::Suitability(e) => e.0,
            Error::Format => "misaligned shader bytecode",
            Error::PipelineBuild(_) => "pipeline build failed",
            Error::Timeout => "fence wait timed out",
            Error::Driver(_) => "driver call failed",
        }
    }
}

} // verus!
