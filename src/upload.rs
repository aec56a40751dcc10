use vstd::prelude::*;

use crate::barrier::{barrier_between, barrier_spec, Barrier, ImageLayout};
use crate::status::{SubmitOutcome, UploadError};

verus! {

/// Where uploaded bytes go.
#[derive(Clone, Copy, Debug, PartialEq, Eq, Structural)]
pub enum UploadTarget {
    /// A linear buffer: no layout to manage.
    Buffer,
    /// An image that is in `old_layout` now and must end in `new_layout`.
    Image { old_layout: ImageLayout, new_layout: ImageLayout },
}

/// One command submitted on its own one-shot command list.
#[derive(Clone, Copy, Debug, PartialEq, Eq, Structural)]
pub enum DeviceCommand {
    Transition(Barrier),
    /// Copy `size` bytes from the staging buffer into the destination.
    Copy { size: usize },
}

pub open spec fn is_copy(c: DeviceCommand) -> bool {
    c is Copy
}

/// Whether the target can be uploaded to: an image cannot be left in `Undefined`.
pub open spec fn valid_target(t: UploadTarget) -> bool {
    match t {
        UploadTarget::Buffer => true,
        UploadTarget::Image { new_layout, .. } => new_layout != ImageLayout::Undefined,
    }
}

/// The commands before the copy: an image is first moved to `TransferDst`.
pub open spec fn plan_before_copy(t: UploadTarget) -> Seq<DeviceCommand> {
    match t {
        UploadTarget::Image { old_layout, .. } => if old_layout == ImageLayout::TransferDst {
            Seq::empty()
        } else {
            seq![DeviceCommand::Transition(barrier_spec(old_layout, ImageLayout::TransferDst))]
        },
        UploadTarget::Buffer => Seq::empty(),
    }
}

/// The commands after the copy: an image is moved on to the layout it is consumed in.
pub open spec fn plan_after_copy(t: UploadTarget) -> Seq<DeviceCommand> {
    match t {
        UploadTarget::Image { new_layout, .. } => if new_layout == ImageLayout::TransferDst {
            Seq::empty()
        } else {
            seq![DeviceCommand::Transition(barrier_spec(ImageLayout::TransferDst, new_layout))]
        },
        UploadTarget::Buffer => Seq::empty(),
    }
}

/// The copy itself; there is nothing to copy for an empty payload.
pub open spec fn plan_copy(size: nat) -> Seq<DeviceCommand> {
    if size > 0 {
        seq![DeviceCommand::Copy { size: size as usize }]
    } else {
        Seq::empty()
    }
}

/// The device commands of an upload of `size` bytes to `t`, in the order they run.
pub open spec fn upload_plan(t: UploadTarget, size: nat) -> Seq<DeviceCommand> {
    plan_before_copy(t) + plan_copy(size) + plan_after_copy(t)
}

/// Builds the device commands of an upload of `size` bytes to `t`.
pub fn plan_upload(t: UploadTarget, size: usize) -> (r: Vec<DeviceCommand>)
    ensures
        r@ == upload_plan(t, size as nat),
{
    let mut r: Vec<DeviceCommand> = Vec::new();
    if let UploadTarget::Image { old_layout, .. } = t {
        if old_layout != ImageLayout::TransferDst {
            r.push(DeviceCommand::Transition(barrier_between(old_layout, ImageLayout::TransferDst)));
        }
    }
    if size > 0 {
        r.push(DeviceCommand::Copy { size });
    }
    if let UploadTarget::Image { new_layout, .. } = t {
        if new_layout != ImageLayout::TransferDst {
            r.push(DeviceCommand::Transition(barrier_between(ImageLayout::TransferDst, new_layout)));
        }
    }
    assert(r@ =~= upload_plan(t, size as nat));
    r
}

/// Where the coordinator stands.
#[derive(Clone, Copy, Debug, PartialEq, Eq, Structural)]
pub enum UploadPhase {
    NotStarted,
    /// The staging buffer is being created and filled.
    Staging,
    /// A command of the plan is running; the host blocks until it completes.
    Running,
    /// The staging buffer is being released; `failed` tells how the upload will end.
    Releasing { failed: bool },
    Done,
}

/// What the caller reports back after performing an action.
#[derive(Clone, Copy, Debug, PartialEq, Eq, Structural)]
pub enum UploadEvent {
    Begin,
    /// Whether the staging buffer and its memory were created and the payload written.
    StagingReady(bool),
    Completed(SubmitOutcome),
    Released,
}

/// The operation the caller performs next.
#[derive(Clone, Copy, Debug, PartialEq, Eq)]
pub enum UploadAction {
    /// Create a staging buffer of `size` bytes backed by host-visible, host-coherent
    /// memory, and write the payload into it.
    CreateStaging { size: usize },
    /// Record the command into a one-shot command list, submit it, and block until the
    /// device signals its completion.
    Run(DeviceCommand),
    /// Destroy the staging buffer and free its memory.
    ReleaseStaging,
    /// The upload is over.
    Finish(Result<(), UploadError>),
}

/// The coordinator's state as mathematical values.
pub struct UploadView {
    pub size: nat,
    pub target: UploadTarget,
    pub plan: Seq<DeviceCommand>,
    pub phase: UploadPhase,
    /// How many commands of the plan have been observed complete.
    pub completed: nat,
    pub staging_alive: bool,
    /// The copy has been submitted.
    pub copy_issued: bool,
    /// The copy has been observed complete.
    pub copy_done: bool,
}

/// Carries one host-to-device upload through staging, barriers and copy, and releases the
/// staging buffer only once the device can no longer read it.
pub struct UploadCoordinator {
    size: usize,
    target: UploadTarget,
    plan: Vec<DeviceCommand>,
    phase: UploadPhase,
    completed: usize,
    staging_alive: bool,
    copy_issued: bool,
    copy_done: bool,
}

impl View for UploadCoordinator {
    type V = UploadView;

    closed spec fn view(&self) -> UploadView {
        UploadView {
            size: self.size as nat,
            target: self.target,
            plan: self.plan@,
            phase: self.phase,
            completed: self.completed as nat,
            staging_alive: self.staging_alive,
            copy_issued: self.copy_issued,
            copy_done: self.copy_done,
        }
    }
}

/// Where the copy stands in the plan.
pub open spec fn copy_index(t: UploadTarget) -> nat {
    plan_before_copy(t).len()
}

/// The coordinator's invariant.
pub open spec fn upload_wf(v: UploadView) -> bool {
    let c = copy_index(v.target);
    &&& valid_target(v.target)
    &&& v.size <= usize::MAX
    &&& v.plan == upload_plan(v.target, v.size)
    &&& v.copy_done ==> v.copy_issued
    &&& v.copy_issued ==> v.size > 0
    &&& match v.phase {
        UploadPhase::NotStarted => !v.staging_alive && !v.copy_issued && v.completed == 0,
        UploadPhase::Staging => !v.staging_alive && !v.copy_issued && v.completed == 0 && v.size > 0,
        UploadPhase::Running => v.completed < v.plan.len() && v.staging_alive == (v.size > 0)
            && v.copy_issued == (v.size > 0 && c <= v.completed)
            && v.copy_done == (v.size > 0 && c < v.completed),
        UploadPhase::Releasing { failed } => v.staging_alive && v.size > 0
            && (v.copy_done || !v.copy_issued)
            && (!failed ==> v.copy_done && v.completed == v.plan.len()),
        UploadPhase::Done => v.staging_alive ==> v.copy_issued && !v.copy_done,
    }
}

/// Whether `ev` is an outcome of the action that state `v` issued.
pub open spec fn upload_accepts(v: UploadView, ev: UploadEvent) -> bool {
    match (v.phase, ev) {
        (UploadPhase::NotStarted, UploadEvent::Begin) => true,
        (UploadPhase::Staging, UploadEvent::StagingReady(_)) => true,
        (UploadPhase::Running, UploadEvent::Completed(_)) => true,
        (UploadPhase::Releasing { .. }, UploadEvent::Released) => true,
        _ => false,
    }
}

/// Goes on with the command after the `v.completed` already done, or, after the last one,
/// releases the staging buffer or finishes.
pub open spec fn continue_plan(v: UploadView) -> (UploadView, UploadAction) {
    if v.completed < v.plan.len() {
        let c = v.plan[v.completed as int];
        (
            UploadView { phase: UploadPhase::Running, copy_issued: v.copy_issued || is_copy(c), ..v },
            UploadAction::Run(c),
        )
    } else if v.staging_alive {
        (UploadView { phase: UploadPhase::Releasing { failed: false }, ..v }, UploadAction::ReleaseStaging)
    } else {
        (UploadView { phase: UploadPhase::Done, ..v }, UploadAction::Finish(Ok(())))
    }
}

/// One transition of the upload: the next state and the action to perform.
pub open spec fn upload_step(v: UploadView, ev: UploadEvent) -> (UploadView, UploadAction) {
    let done = UploadView { phase: UploadPhase::Done, ..v };
    match (v.phase, ev) {
        (UploadPhase::NotStarted, UploadEvent::Begin) => if v.size > 0 {
            (UploadView { phase: UploadPhase::Staging, ..v }, UploadAction::CreateStaging { size: v.size as usize })
        } else {
            continue_plan(v)
        },
        (UploadPhase::Staging, UploadEvent::StagingReady(ready)) => if ready {
            continue_plan(UploadView { staging_alive: true, ..v })
        } else {
            (done, UploadAction::Finish(Err(UploadError::AllocationFailure)))
        },
        (UploadPhase::Running, UploadEvent::Completed(SubmitOutcome::Completed)) => {
            let c = v.plan[v.completed as int];
            continue_plan(UploadView { completed: v.completed + 1, copy_done: v.copy_done || is_copy(c), ..v })
        },
        (UploadPhase::Running, UploadEvent::Completed(SubmitOutcome::Failed)) => if is_copy(v.plan[v.completed as int]) {
            // The copy may still read the staging buffer: it is kept.
            (done, UploadAction::Finish(Err(UploadError::DeviceLost)))
        } else if v.staging_alive {
            (UploadView { phase: UploadPhase::Releasing { failed: true }, ..v }, UploadAction::ReleaseStaging)
        } else {
            (done, UploadAction::Finish(Err(UploadError::DeviceLost)))
        },
        (UploadPhase::Releasing { failed }, UploadEvent::Released) => (
            UploadView { phase: UploadPhase::Done, staging_alive: false, ..v },
            UploadAction::Finish(if failed { Err(UploadError::DeviceLost) } else { Ok(()) }),
        ),
        _ => (v, UploadAction::Finish(Err(UploadError::InvalidRequest))),
    }
}

impl UploadCoordinator {
    /// Prepares an upload of `size` bytes to `target`.
    pub fn new(size: usize, target: UploadTarget) -> (r: Result<UploadCoordinator, UploadError>)
        ensures
            !valid_target(target) ==> r == Err::<UploadCoordinator, UploadError>(UploadError::InvalidRequest),
            valid_target(target) ==> r is Ok && r->Ok_0@ == (UploadView {
                size: size as nat,
                target,
                plan: upload_plan(target, size as nat),
                phase: UploadPhase::NotStarted,
                completed: 0,
                staging_alive: false,
                copy_issued: false,
                copy_done: false,
            }),
            r is Ok ==> upload_wf(r->Ok_0@),
    {
        if let UploadTarget::Image { new_layout: ImageLayout::Undefined, .. } = target {
            return Err(UploadError::InvalidRequest);
        }
        let plan = plan_upload(target, size);
        Ok(UploadCoordinator {
            size,
            target,
            plan,
            phase: UploadPhase::NotStarted,
            completed: 0,
            staging_alive: false,
            copy_issued: false,
            copy_done: false,
        })
    }

    pub fn phase(&self) -> (r: UploadPhase)
        ensures
            r == self@.phase,
    {
        self.phase
    }

    /// The device commands of this upload, in order.
    pub fn plan(&self) -> (r: &Vec<DeviceCommand>)
        ensures
            r@ == self@.plan,
    {
        &self.plan
    }

    /// Whether the staging buffer exists and has not been released. After an upload that
    /// failed during its copy it is still held: it may be freed once the device is idle.
    pub fn holds_staging(&self) -> (r: bool)
        ensures
            r == self@.staging_alive,
    {
        self.staging_alive
    }

    /// Whether `ev` is an outcome of the action this coordinator issued last.
    pub fn accepts(&self, ev: UploadEvent) -> (r: bool)
        ensures
            r == upload_accepts(self@, ev),
    {
        match (self.phase, ev) {
            (UploadPhase::NotStarted, UploadEvent::Begin) => true,
            (UploadPhase::Staging, UploadEvent::StagingReady(_)) => true,
            (UploadPhase::Running, UploadEvent::Completed(_)) => true,
            (UploadPhase::Releasing { .. }, UploadEvent::Released) => true,
            _ => false,
        }
    }

    fn continue_plan(&mut self) -> (a: UploadAction)
        requires
            old(self)@.completed <= old(self)@.plan.len(),
        ensures
            (final(self)@, a) == continue_plan(old(self)@),
    {
        if self.completed < self.plan.len() {
            let c = self.plan[self.completed];
            if let DeviceCommand::Copy { .. } = c {
                self.copy_issued = true;
            }
            self.phase = UploadPhase::Running;
            UploadAction::Run(c)
        } else if self.staging_alive {
            self.phase = UploadPhase::Releasing { failed: false };
            UploadAction::ReleaseStaging
        } else {
            self.phase = UploadPhase::Done;
            UploadAction::Finish(Ok(()))
        }
    }

    /// Takes the outcome of the last action and returns the next one.
    pub fn step(&mut self, ev: UploadEvent) -> (a: UploadAction)
        requires
            upload_wf(old(self)@),
            upload_accepts(old(self)@, ev),
        ensures
            (final(self)@, a) == upload_step(old(self)@, ev),
            upload_wf(final(self)@),
    {
        match (self.phase, ev) {
            (UploadPhase::NotStarted, UploadEvent::Begin) => {
                if self.size > 0 {
                    self.phase = UploadPhase::Staging;
                    UploadAction::CreateStaging { size: self.size }
                } else {
                    self.continue_plan()
                }
            },
            (UploadPhase::Staging, UploadEvent::StagingReady(ready)) => {
                if ready {
                    self.staging_alive = true;
                    self.continue_plan()
                } else {
                    self.phase = UploadPhase::Done;
                    UploadAction::Finish(Err(UploadError::AllocationFailure))
                }
            },
            (UploadPhase::Running, UploadEvent::Completed(SubmitOutcome::Completed)) => {
                if let DeviceCommand::Copy { .. } = self.plan[self.completed] {
                    self.copy_done = true;
                }
                self.completed = self.completed + 1;
                self.continue_plan()
            },
            (UploadPhase::Running, UploadEvent::Completed(SubmitOutcome::Failed)) => {
                if let DeviceCommand::Copy { .. } = self.plan[self.completed] {
                    self.phase = UploadPhase::Done;
                    UploadAction::Finish(Err(UploadError::DeviceLost))
                } else if self.staging_alive {
                    self.phase = UploadPhase::Releasing { failed: true };
                    UploadAction::ReleaseStaging
                } else {
                    self.phase = UploadPhase::Done;
                    UploadAction::Finish(Err(UploadError::DeviceLost))
                }
            },
            (UploadPhase::Releasing { failed }, UploadEvent::Released) => {
                self.staging_alive = false;
                self.phase = UploadPhase::Done;
                UploadAction::Finish(if failed { Err(UploadError::DeviceLost) } else { Ok(()) })
            },
            _ => UploadAction::Finish(Err(UploadError::InvalidRequest)),
        }
    }
}

} // verus!
