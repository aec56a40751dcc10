//! Host/device synchronisation for a renderer: a frame scheduler that keeps at most
//! a fixed number of frames in flight and tracks which frame slot last rendered into
//! each presentable image, and an upload coordinator that moves host bytes into
//! device-local memory through a staging buffer with correctly ordered barriers.
//!
//! Both are written as state machines: the caller performs the device operation that
//! an action names and hands the outcome back as an event.

pub mod barrier;
pub mod frame_laws;
pub mod memory;
pub mod scheduler;
pub mod status;
pub mod upload;
pub mod upload_laws;

pub use barrier::{barrier_between, Access, Barrier, ImageLayout, PipelineStage};
pub use memory::{
    find_memory_type, staging_memory_type, MEMORY_DEVICE_LOCAL, MEMORY_HOST_COHERENT, MEMORY_HOST_VISIBLE,
    STAGING_PROPERTIES,
};
pub use scheduler::{FrameAction, FrameEvent, FrameScheduler, Phase, SchedulerView};
pub use status::{ConfigError, DeviceStatus, FrameStatus, SubmitOutcome, UploadError, WaitOutcome};
pub use upload::{
    plan_upload, DeviceCommand, UploadAction, UploadCoordinator, UploadEvent, UploadPhase, UploadTarget, UploadView,
};
