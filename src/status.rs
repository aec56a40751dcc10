use vstd::prelude::*;

verus! {

/// What the presentation engine reports for an acquire, a submission or a present.
#[derive(Clone, Copy, Debug, PartialEq, Eq, Structural)]
pub enum DeviceStatus {
    Success,
    /// The surface is out of date (for example after a resize): recoverable by the
    /// caller, who rebuilds the surface and its per-image resources.
    SurfaceStale,
    /// Any other device-reported failure: the device is in an unrecoverable state.
    Fatal,
}

/// Result of a host wait on a fence.
#[derive(Clone, Copy, Debug, PartialEq, Eq, Structural)]
pub enum WaitOutcome {
    Signaled,
    /// A bounded wait expired: the device has not finished yet, which is no failure.
    Timeout,
}

/// How one iteration of the frame loop ended.
#[derive(Clone, Copy, Debug, PartialEq, Eq, Structural)]
pub enum FrameStatus {
    Presented,
    SurfaceStale,
    Timeout,
    DeviceLost,
}

/// Result of a one-shot submission that the host blocks on.
#[derive(Clone, Copy, Debug, PartialEq, Eq, Structural)]
pub enum SubmitOutcome {
    /// Submitted, and its completion was observed by the host.
    Completed,
    /// The submission or the wait for it failed.
    Failed,
}

/// Why an upload did not complete.
#[derive(Clone, Copy, Debug, PartialEq, Eq, Structural)]
pub enum UploadError {
    /// The request cannot be carried out as asked (an image cannot end in `Undefined`).
    InvalidRequest,
    AllocationFailure,
    DeviceLost,
}

/// Why a scheduler could not be set up for the given counts.
#[derive(Clone, Copy, Debug, PartialEq, Eq, Structural)]
pub enum ConfigError {
    /// At least one frame slot is needed.
    NoFrameSlots,
    /// The surface offers fewer presentable images than there are frame slots.
    TooFewImages,
}

/// The frame status that a failed acquire, submit or present ends an iteration with.
pub open spec fn failure_status(s: DeviceStatus) -> FrameStatus {
    match s {
        DeviceStatus::SurfaceStale => FrameStatus::SurfaceStale,
        _ => FrameStatus::DeviceLost,
    }
}

/// Maps a device status to the status of the frame it ends.
pub fn frame_status_of(s: DeviceStatus) -> (r: FrameStatus)
    ensures
        s == DeviceStatus::Success ==> r == FrameStatus::Presented,
        s != DeviceStatus::Success ==> r == failure_status(s),
{
    match s {
        DeviceStatus::Success => FrameStatus::Presented,
        DeviceStatus::SurfaceStale => FrameStatus::SurfaceStale,
        DeviceStatus::Fatal => FrameStatus::DeviceLost,
    }
}

} // verus!
