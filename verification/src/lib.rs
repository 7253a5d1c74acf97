//! Verified planning core for a single GPU compute dispatch.
//!
//! The crate holds every decision the run makes: which device, queue family
//! and memory type to use, whether a shader binary is well formed, how the
//! one memory block is divided, what is recorded into the command buffer, how
//! the fence wait ends, and in which order resources are released. Driver
//! calls themselves are left to the caller, who passes in plain values and
//! carries out the plans returned here.

pub mod app;
pub mod commands;
pub mod device;
pub mod engine;
pub mod error;
pub mod flags;
pub mod instance;
pub mod layout;
pub mod lifecycle;
pub mod memory;
pub mod pipeline;
pub mod shader;

pub use app::App;
pub use device::{
    candidates_examined,
    get_first_compute_queue_family_index,
    has_compute_queue,
    pick_physical_device,
    Config,
    DeviceConfig,
};
pub use error::{Error, SuitabilityError};
pub use memory::get_best_memory_type_index;
pub use shader::create_shader_module;
