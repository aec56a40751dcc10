use vstd::arithmetic::div_mod::{lemma_mod_self_0, lemma_small_mod};
use vstd::prelude::*;

use crate::status::{failure_status, frame_status_of, ConfigError, DeviceStatus, FrameStatus, WaitOutcome};

verus! {

/// Where the scheduler stands within one iteration of the frame loop.
#[derive(Clone, Copy, Debug, PartialEq, Eq, Structural)]
pub enum Phase {
    /// Between iterations.
    Idle,
    /// Waiting on the current slot's fence.
    WaitSlot,
    /// Acquiring the next presentable image.
    Acquire,
    /// Waiting on the fence of the slot that last rendered into `image`.
    WaitImage { image: usize },
    /// The caller is refreshing the per-image resources of `image` and recording.
    Record { image: usize },
    /// The command list for `image` is being submitted.
    Submit { image: usize },
    /// `image` is being presented.
    Present { image: usize },
}

/// What the caller reports back after performing an action.
#[derive(Clone, Copy, Debug, PartialEq, Eq, Structural)]
pub enum FrameEvent {
    /// Starts an iteration, or resumes one that ended in a timed-out wait.
    Begin,
    FenceWaited(WaitOutcome),
    /// The presentation engine chose `image`.
    Acquired { image: usize, status: DeviceStatus },
    Recorded,
    Submitted(DeviceStatus),
    Presented(DeviceStatus),
}

/// The device operation the caller performs next.
#[derive(Clone, Copy, Debug, PartialEq, Eq, Structural)]
pub enum FrameAction {
    /// Wait on the completion fence of `slot`.
    WaitFence { slot: usize },
    /// Acquire the next image, raising the image-acquired signal of `slot`.
    AcquireImage { slot: usize },
    /// Refresh the host-visible resources of `image` and record its commands
    /// into the command buffer of `slot`.
    RecordImage { image: usize, slot: usize },
    /// Reset the fence of `slot`, then submit the commands for `image`: wait on the
    /// image-acquired signal of `slot`, raise its render-complete signal and its fence.
    Submit { image: usize, slot: usize },
    /// Present `image` once the render-complete signal of `slot` is raised.
    Present { image: usize, slot: usize },
    /// The iteration is over.
    Finish(FrameStatus),
}

/// The scheduler's state as mathematical values.
pub struct SchedulerView {
    pub frames_in_flight: nat,
    pub current_slot: nat,
    /// `slot_pending[s]`: a submission signalling the fence of slot `s` is outstanding,
    /// and the host has not yet observed that fence signalled.
    pub slot_pending: Seq<bool>,
    /// `image_owner[k]`: the slot whose fence guards the last submission that rendered
    /// into image `k`, if any.
    pub image_owner: Seq<Option<usize>>,
    pub phase: Phase,
}

/// Keeps host work at most a fixed number of frames ahead of the device, and maps each
/// presentable image to the fence of the slot that last rendered into it.
pub struct FrameScheduler {
    frames_in_flight: usize,
    current_slot: usize,
    slot_pending: Vec<bool>,
    image_owner: Vec<Option<usize>>,
    phase: Phase,
}

impl View for FrameScheduler {
    type V = SchedulerView;

    closed spec fn view(&self) -> SchedulerView {
        SchedulerView {
            frames_in_flight: self.frames_in_flight as nat,
            current_slot: self.current_slot as nat,
            slot_pending: self.slot_pending@,
            image_owner: self.image_owner@,
            phase: self.phase,
        }
    }
}

/// The slot that image `k` was last rendered from, if that submission may still run.
pub open spec fn busy_owner(v: SchedulerView, k: int) -> Option<usize> {
    match v.image_owner[k] {
        Some(o) => if v.slot_pending[o as int] { Some(o) } else { None },
        None => None,
    }
}

/// Image `k` can be touched by the host: no submission that rendered into it may still run.
pub open spec fn image_free(v: SchedulerView, k: int) -> bool {
    busy_owner(v, k) is None
}

pub open spec fn phase_wf(v: SchedulerView) -> bool {
    let cur = v.current_slot as int;
    let n = v.image_owner.len();
    match v.phase {
        Phase::Idle => true,
        Phase::WaitSlot => v.slot_pending[cur],
        Phase::Acquire => !v.slot_pending[cur],
        Phase::WaitImage { image } => image < n && !v.slot_pending[cur] && busy_owner(v, image as int) is Some,
        Phase::Record { image } => image < n && !v.slot_pending[cur] && image_free(v, image as int),
        Phase::Submit { image } => image < n && !v.slot_pending[cur] && image_free(v, image as int),
        Phase::Present { image } => image < n && v.slot_pending[cur] && v.image_owner[image as int] == Some(cur as usize),
    }
}

/// The scheduler's invariant.
pub open spec fn wf(v: SchedulerView) -> bool {
    &&& 1 <= v.frames_in_flight <= usize::MAX
    &&& v.slot_pending.len() == v.frames_in_flight
    &&& v.current_slot < v.frames_in_flight
    &&& v.image_owner.len() >= v.frames_in_flight
    &&& forall|k: int| #![trigger v.image_owner[k]]
        0 <= k < v.image_owner.len() && v.image_owner[k] is Some ==> (v.image_owner[k]->0 as nat) < v.frames_in_flight
    &&& phase_wf(v)
}

/// A freshly set up scheduler: slot 0 first, nothing in flight, no image rendered yet.
pub open spec fn initial(frames_in_flight: nat, image_count: nat) -> SchedulerView {
    SchedulerView {
        frames_in_flight,
        current_slot: 0,
        slot_pending: Seq::new(frames_in_flight, |s: int| false),
        image_owner: Seq::new(image_count, |k: int| None),
        phase: Phase::Idle,
    }
}

/// Whether `ev` is an outcome of the action that state `v` issued.
pub open spec fn accepts(v: SchedulerView, ev: FrameEvent) -> bool {
    match (v.phase, ev) {
        (Phase::Idle, FrameEvent::Begin) => true,
        (Phase::WaitSlot, FrameEvent::Begin) => true,
        (Phase::WaitSlot, FrameEvent::FenceWaited(_)) => true,
        (Phase::Acquire, FrameEvent::Acquired { .. }) => true,
        (Phase::WaitImage { .. }, FrameEvent::Begin) => true,
        (Phase::WaitImage { .. }, FrameEvent::FenceWaited(_)) => true,
        (Phase::Record { .. }, FrameEvent::Recorded) => true,
        (Phase::Submit { .. }, FrameEvent::Submitted(_)) => true,
        (Phase::Present { .. }, FrameEvent::Presented(_)) => true,
        _ => false,
    }
}

/// The slot whose fence state `v` waits on, if it waits on one.
pub open spec fn awaited_slot(v: SchedulerView) -> Option<usize> {
    match v.phase {
        Phase::WaitSlot => Some(v.current_slot as usize),
        Phase::WaitImage { image } => v.image_owner[image as int],
        _ => None,
    }
}

/// Continues with image `image` just acquired for the current slot: wait on the slot that
/// last rendered into it while that may still run, else go on to recording.
pub open spec fn after_acquire(v: SchedulerView, image: usize) -> (SchedulerView, FrameAction) {
    let cur = v.current_slot as usize;
    match busy_owner(v, image as int) {
        Some(o) => (SchedulerView { phase: Phase::WaitImage { image }, ..v }, FrameAction::WaitFence { slot: o }),
        None => (SchedulerView { phase: Phase::Record { image }, ..v }, FrameAction::RecordImage { image, slot: cur }),
    }
}

/// One transition: the next state and the action to perform, for an accepted event.
pub open spec fn step_spec(v: SchedulerView, ev: FrameEvent) -> (SchedulerView, FrameAction) {
    let cur = v.current_slot as usize;
    let idle = SchedulerView { phase: Phase::Idle, ..v };
    match (v.phase, ev) {
        (Phase::Idle, FrameEvent::Begin) => if v.slot_pending[cur as int] {
            (SchedulerView { phase: Phase::WaitSlot, ..v }, FrameAction::WaitFence { slot: cur })
        } else {
            (SchedulerView { phase: Phase::Acquire, ..v }, FrameAction::AcquireImage { slot: cur })
        },
        (Phase::WaitSlot, FrameEvent::Begin) => (v, FrameAction::WaitFence { slot: cur }),
        (Phase::WaitSlot, FrameEvent::FenceWaited(WaitOutcome::Signaled)) => (
            SchedulerView { phase: Phase::Acquire, slot_pending: v.slot_pending.update(cur as int, false), ..v },
            FrameAction::AcquireImage { slot: cur },
        ),
        (Phase::Acquire, FrameEvent::Acquired { image, status }) => if status != DeviceStatus::Success {
            (idle, FrameAction::Finish(failure_status(status)))
        } else if image >= v.image_owner.len() {
            (idle, FrameAction::Finish(FrameStatus::DeviceLost))
        } else {
            after_acquire(v, image)
        },
        (Phase::WaitImage { image }, FrameEvent::Begin) => (v, FrameAction::WaitFence { slot: v.image_owner[image as int]->0 }),
        (Phase::WaitImage { image }, FrameEvent::FenceWaited(WaitOutcome::Signaled)) => (
            SchedulerView {
                phase: Phase::Record { image },
                slot_pending: v.slot_pending.update(v.image_owner[image as int]->0 as int, false),
                ..v
            },
            FrameAction::RecordImage { image, slot: cur },
        ),
        (Phase::Record { image }, FrameEvent::Recorded) => (
            SchedulerView { phase: Phase::Submit { image }, ..v },
            FrameAction::Submit { image, slot: cur },
        ),
        (Phase::Submit { image }, FrameEvent::Submitted(status)) => if status == DeviceStatus::Success {
            (
                SchedulerView {
                    phase: Phase::Present { image },
                    slot_pending: v.slot_pending.update(cur as int, true),
                    image_owner: v.image_owner.update(image as int, Some(cur)),
                    ..v
                },
                FrameAction::Present { image, slot: cur },
            )
        } else {
            (idle, FrameAction::Finish(failure_status(status)))
        },
        (Phase::Present { .. }, FrameEvent::Presented(status)) => (
            SchedulerView {
                phase: Phase::Idle,
                current_slot: ((v.current_slot + 1) % v.frames_in_flight) as nat,
                ..v
            },
            FrameAction::Finish(if status == DeviceStatus::Success { FrameStatus::Presented } else { failure_status(status) }),
        ),
        // A timed-out wait ends the iteration where it stood; `Begin` resumes it.
        _ => (v, FrameAction::Finish(FrameStatus::Timeout)),
    }
}


/// The slots whose fence is pending, in increasing order.
pub open spec fn pending_slots(p: Seq<bool>) -> Seq<usize>
    decreases p.len(),
{
    if p.len() == 0 {
        Seq::empty()
    } else {
        let rest = pending_slots(p.drop_last());
        if p.last() {
            rest.push((p.len() - 1) as usize)
        } else {
            rest
        }
    }
}

/// Shutting down: every pending fence is waited on, after which nothing is in flight.
pub open spec fn shutdown_spec(v: SchedulerView) -> (SchedulerView, Seq<usize>) {
    (
        SchedulerView {
            slot_pending: Seq::new(v.slot_pending.len(), |s: int| false),
            phase: Phase::Idle,
            ..v
        },
        pending_slots(v.slot_pending),
    )
}

/// The state after a sequence of events, stopping at the first one not accepted.
pub open spec fn run(v: SchedulerView, evs: Seq<FrameEvent>) -> SchedulerView
    decreases evs.len(),
{
    if evs.len() == 0 || !accepts(v, evs[0]) {
        v
    } else {
        run(step_spec(v, evs[0]).0, evs.drop_first())
    }
}

impl FrameScheduler {
    /// Sets up `frames_in_flight` frame slots against `image_count` presentable images.
    pub fn new(frames_in_flight: usize, image_count: usize) -> (r: Result<FrameScheduler, ConfigError>)
        ensures
            frames_in_flight == 0 ==> r == Err::<FrameScheduler, ConfigError>(ConfigError::NoFrameSlots),
            frames_in_flight > 0 && image_count < frames_in_flight ==> r == Err::<FrameScheduler, ConfigError>(ConfigError::TooFewImages),
            frames_in_flight > 0 && image_count >= frames_in_flight ==> r is Ok && r->Ok_0@ == initial(frames_in_flight as nat, image_count as nat),
            r is Ok ==> wf(r->Ok_0@),
    {
        if frames_in_flight == 0 {
            return Err(ConfigError::NoFrameSlots);
        }
        if image_count < frames_in_flight {
            return Err(ConfigError::TooFewImages);
        }
        let slot_pending = nothing_pending(frames_in_flight);
        let image_owner = no_owners(image_count);
        let r = FrameScheduler { frames_in_flight, current_slot: 0, slot_pending, image_owner, phase: Phase::Idle };
        Ok(r)
    }

    pub fn frames_in_flight(&self) -> (r: usize)
        ensures
            r == self@.frames_in_flight,
    {
        self.frames_in_flight
    }

    pub fn image_count(&self) -> (r: usize)
        ensures
            r == self@.image_owner.len(),
    {
        self.image_owner.len()
    }

    pub fn current_slot(&self) -> (r: usize)
        ensures
            r == self@.current_slot,
    {
        self.current_slot
    }

    pub fn phase(&self) -> (r: Phase)
        ensures
            r == self@.phase,
    {
        self.phase
    }

    /// Whether a submission on `slot` is outstanding and not yet observed complete.
    pub fn is_pending(&self, slot: usize) -> (r: bool)
        requires
            slot < self@.slot_pending.len(),
        ensures
            r == self@.slot_pending[slot as int],
    {
        self.slot_pending[slot]
    }

    /// The slot whose fence guards the last submission that rendered into `image`.
    pub fn image_owner(&self, image: usize) -> (r: Option<usize>)
        requires
            image < self@.image_owner.len(),
        ensures
            r == self@.image_owner[image as int],
    {
        self.image_owner[image]
    }

    /// Releases the frame slots' claims: returns the slots whose fences must be waited on,
    /// exactly those with a submission still outstanding, before their resources are freed.
    pub fn shutdown(&mut self) -> (r: Vec<usize>)
        requires
            wf(old(self)@),
        ensures
            (final(self)@, r@) == shutdown_spec(old(self)@),
            wf(final(self)@),
    {
        let mut r: Vec<usize> = Vec::new();
        let n = self.slot_pending.len();
        let mut s: usize = 0;
        while s < n
            invariant
                n == self.slot_pending.len(),
                s <= n,
                r@ == pending_slots(self.slot_pending@.subrange(0, s as int)),
            decreases n - s,
        {
            proof {
                let p = self.slot_pending@.subrange(0, s as int + 1);
                assert(p.drop_last() =~= self.slot_pending@.subrange(0, s as int));
            }
            if self.slot_pending[s] {
                r.push(s);
            }
            s = s + 1;
        }
        assert(self.slot_pending@.subrange(0, n as int) =~= self.slot_pending@);
        self.slot_pending = nothing_pending(n);
        self.phase = Phase::Idle;
        r
    }

    /// Starts over with a rebuilt surface of `image_count` images, none rendered into.
    pub fn surface_rebuilt(&mut self, image_count: usize) -> (r: Result<(), ConfigError>)
        requires
            wf(old(self)@),
        ensures
            image_count < old(self)@.frames_in_flight ==> r == Err::<(), ConfigError>(ConfigError::TooFewImages)
                && final(self)@ == old(self)@,
            image_count >= old(self)@.frames_in_flight ==> r is Ok && final(self)@ == (SchedulerView {
                image_owner: Seq::new(image_count as nat, |k: int| None::<usize>),
                phase: Phase::Idle,
                ..old(self)@
            }),
            wf(final(self)@),
    {
        if image_count < self.frames_in_flight {
            return Err(ConfigError::TooFewImages);
        }
        self.image_owner = no_owners(image_count);
        self.phase = Phase::Idle;
        Ok(())
    }

    /// Whether `ev` is an outcome of the action this scheduler issued last.
    pub fn accepts(&self, ev: FrameEvent) -> (r: bool)
        ensures
            r == accepts(self@, ev),
    {
        match (self.phase, ev) {
            (Phase::Idle, FrameEvent::Begin) => true,
            (Phase::WaitSlot, FrameEvent::Begin) => true,
            (Phase::WaitSlot, FrameEvent::FenceWaited(_)) => true,
            (Phase::Acquire, FrameEvent::Acquired { .. }) => true,
            (Phase::WaitImage { .. }, FrameEvent::Begin) => true,
            (Phase::WaitImage { .. }, FrameEvent::FenceWaited(_)) => true,
            (Phase::Record { .. }, FrameEvent::Recorded) => true,
            (Phase::Submit { .. }, FrameEvent::Submitted(_)) => true,
            (Phase::Present { .. }, FrameEvent::Presented(_)) => true,
            _ => false,
        }
    }

    /// Takes the outcome of the last action and returns the next one.
    pub fn step(&mut self, ev: FrameEvent) -> (a: FrameAction)
        requires
            wf(old(self)@),
            accepts(old(self)@, ev),
        ensures
            (final(self)@, a) == step_spec(old(self)@, ev),
            wf(final(self)@),
    {
        let cur = self.current_slot;
        match (self.phase, ev) {
            (Phase::Idle, FrameEvent::Begin) => {
                if self.slot_pending[cur] {
                    self.phase = Phase::WaitSlot;
                    FrameAction::WaitFence { slot: cur }
                } else {
                    self.phase = Phase::Acquire;
                    FrameAction::AcquireImage { slot: cur }
                }
            },
            (Phase::WaitSlot, FrameEvent::Begin) => FrameAction::WaitFence { slot: cur },
            (Phase::WaitSlot, FrameEvent::FenceWaited(WaitOutcome::Signaled)) => {
                self.slot_pending.set(cur, false);
                self.phase = Phase::Acquire;
                FrameAction::AcquireImage { slot: cur }
            },
            (Phase::Acquire, FrameEvent::Acquired { image, status }) => {
                if status != DeviceStatus::Success {
                    self.phase = Phase::Idle;
                    FrameAction::Finish(frame_status_of(status))
                } else if image >= self.image_owner.len() {
                    self.phase = Phase::Idle;
                    FrameAction::Finish(FrameStatus::DeviceLost)
                } else {
                    match self.image_owner[image] {
                        Some(o) => {
                            if self.slot_pending[o] {
                                self.phase = Phase::WaitImage { image };
                                FrameAction::WaitFence { slot: o }
                            } else {
                                self.phase = Phase::Record { image };
                                FrameAction::RecordImage { image, slot: cur }
                            }
                        },
                        None => {
                            self.phase = Phase::Record { image };
                            FrameAction::RecordImage { image, slot: cur }
                        },
                    }
                }
            },
            (Phase::WaitImage { image }, FrameEvent::Begin) => {
                let o = self.image_owner[image].unwrap();
                FrameAction::WaitFence { slot: o }
            },
            (Phase::WaitImage { image }, FrameEvent::FenceWaited(WaitOutcome::Signaled)) => {
                let o = self.image_owner[image].unwrap();
                self.slot_pending.set(o, false);
                self.phase = Phase::Record { image };
                FrameAction::RecordImage { image, slot: cur }
            },
            (Phase::Record { image }, FrameEvent::Recorded) => {
                self.phase = Phase::Submit { image };
                FrameAction::Submit { image, slot: cur }
            },
            (Phase::Submit { image }, FrameEvent::Submitted(status)) => {
                if status == DeviceStatus::Success {
                    self.slot_pending.set(cur, true);
                    self.image_owner.set(image, Some(cur));
                    self.phase = Phase::Present { image };
                    FrameAction::Present { image, slot: cur }
                } else {
                    self.phase = Phase::Idle;
                    FrameAction::Finish(frame_status_of(status))
                }
            },
            (Phase::Present { .. }, FrameEvent::Presented(status)) => {
                proof {
                    if cur + 1 == self.frames_in_flight {
                        lemma_mod_self_0(self.frames_in_flight as int);
                    } else {
                        lemma_small_mod((cur + 1) as nat, self.frames_in_flight as nat);
                    }
                }
                self.current_slot = if cur + 1 == self.frames_in_flight { 0 } else { cur + 1 };
                self.phase = Phase::Idle;
                FrameAction::Finish(frame_status_of(status))
            },
            _ => FrameAction::Finish(FrameStatus::Timeout),
        }
    }
}

/// `n` frame slots, none with a submission outstanding.
fn nothing_pending(n: usize) -> (r: Vec<bool>)
    ensures
        r@ == Seq::new(n as nat, |s: int| false),
{
    let mut r: Vec<bool> = Vec::new();
    let mut s: usize = 0;
    while s < n
        invariant
            s <= n,
            r@ =~= Seq::new(s as nat, |i: int| false),
        decreases n - s,
    {
        r.push(false);
        s = s + 1;
    }
    assert(r@ =~= Seq::new(n as nat, |s: int| false));
    r
}

/// A table of `n` images, none rendered into yet.
fn no_owners(n: usize) -> (r: Vec<Option<usize>>)
    ensures
        r@ == Seq::new(n as nat, |k: int| None::<usize>),
{
    let mut r: Vec<Option<usize>> = Vec::new();
    let mut k: usize = 0;
    while k < n
        invariant
            k <= n,
            r@ =~= Seq::new(k as nat, |i: int| None::<usize>),
        decreases n - k,
    {
        r.push(None);
        k = k + 1;
    }
    assert(r@ =~= Seq::new(n as nat, |k: int| None::<usize>));
    r
}

} // verus!
