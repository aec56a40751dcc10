use vstd::prelude::*;

use crate::scheduler::{
    accepts, awaited_slot, busy_owner, image_free, initial, pending_slots, run, shutdown_spec, step_spec, wf,
    FrameAction, FrameEvent, Phase, SchedulerView,
};
use crate::status::{DeviceStatus, WaitOutcome};

verus! {

/// `pending_slots` lists each pending slot once, in increasing order, and nothing else.
pub proof fn lemma_pending_slots(p: Seq<bool>)
    requires
        p.len() <= usize::MAX,
    ensures
        pending_slots(p).len() <= p.len(),
        forall|i: int| #![trigger pending_slots(p)[i]]
            0 <= i < pending_slots(p).len() ==> pending_slots(p)[i] < p.len() && p[pending_slots(p)[i] as int],
        forall|i: int, j: int| 0 <= i < j < pending_slots(p).len() ==> pending_slots(p)[i] < pending_slots(p)[j],
        forall|s: int| 0 <= s < p.len() && #[trigger] p[s] ==> pending_slots(p).contains(s as usize),
    decreases p.len(),
{
    if p.len() > 0 {
        let q = p.drop_last();
        lemma_pending_slots(q);
        let rest = pending_slots(q);
        let w = pending_slots(p);
        assert forall|s: int| 0 <= s < p.len() && #[trigger] p[s] implies w.contains(s as usize) by {
            if s == p.len() - 1 {
                assert(w[rest.len() as int] == s as usize);
            } else {
                assert(q[s] == p[s]);
                let k = choose|k: int| 0 <= k < rest.len() && rest[k] == s as usize;
                assert(w[k] == s as usize);
            }
        }
        assert forall|i: int| #![trigger w[i]] 0 <= i < w.len() implies w[i] < p.len() && p[w[i] as int] by {
            if i < rest.len() {
                assert(q[rest[i] as int] == p[rest[i] as int]);
            }
        }
    }
}

/// Applying an accepted event keeps the scheduler well formed.
pub proof fn lemma_step_keeps_wf(v: SchedulerView, ev: FrameEvent)
    requires
        wf(v),
        accepts(v, ev),
    ensures
        wf(step_spec(v, ev).0),
        step_spec(v, ev).0.frames_in_flight == v.frames_in_flight,
{
    if let Phase::Present { .. } = v.phase {
        let f = v.frames_in_flight as int;
        if v.current_slot + 1 == f {
            vstd::arithmetic::div_mod::lemma_mod_self_0(f);
        } else {
            vstd::arithmetic::div_mod::lemma_small_mod((v.current_slot + 1) as nat, f as nat);
        }
    }
}

/// Every state reached from a well-formed one by any sequence of events is well formed,
/// with the same number of frame slots.
pub proof fn lemma_run_keeps_wf(v: SchedulerView, evs: Seq<FrameEvent>)
    requires
        wf(v),
    ensures
        wf(run(v, evs)),
        run(v, evs).frames_in_flight == v.frames_in_flight,
    decreases evs.len(),
{
    if evs.len() > 0 && accepts(v, evs[0]) {
        lemma_step_keeps_wf(v, evs[0]);
        lemma_run_keeps_wf(step_spec(v, evs[0]).0, evs.drop_first());
    }
}

/// A freshly set up scheduler is well formed.
pub proof fn lemma_initial_wf(frames_in_flight: nat, image_count: nat)
    requires
        1 <= frames_in_flight <= image_count,
        frames_in_flight <= usize::MAX,
    ensures
        wf(initial(frames_in_flight, image_count)),
{
}

/// Bounded overlap: whatever events a freshly set up scheduler has been driven through,
/// at most `frames_in_flight` submissions are outstanding, at most one per slot.
pub proof fn lemma_bounded_overlap(frames_in_flight: nat, image_count: nat, evs: Seq<FrameEvent>)
    requires
        1 <= frames_in_flight <= image_count,
        frames_in_flight <= usize::MAX,
    ensures
        wf(run(initial(frames_in_flight, image_count), evs)),
        pending_slots(run(initial(frames_in_flight, image_count), evs).slot_pending).len() <= frames_in_flight,
        pending_slots(run(initial(frames_in_flight, image_count), evs).slot_pending).no_duplicates(),
{
    let v = initial(frames_in_flight, image_count);
    lemma_initial_wf(frames_in_flight, image_count);
    lemma_run_keeps_wf(v, evs);
    let p = run(v, evs).slot_pending;
    lemma_pending_slots(p);
    let w = pending_slots(p);
    assert forall|i: int, j: int| 0 <= i < w.len() && 0 <= j < w.len() && i != j implies w[i] != w[j] by {
        if i < j {
            assert(w[i] < w[j]);
        } else {
            assert(w[j] < w[i]);
        }
    }
}

/// No premature reuse: the scheduler hands out the current slot's command buffer for
/// recording or submission only once that slot has no outstanding submission, and a slot
/// stops being outstanding only when a wait on its own fence has returned `Signaled`.
pub proof fn lemma_no_premature_reuse(v: SchedulerView, ev: FrameEvent)
    requires
        wf(v),
        accepts(v, ev),
    ensures
        ({
            let (n, a) = step_spec(v, ev);
            match a {
                FrameAction::RecordImage { slot, .. } => slot == v.current_slot && !n.slot_pending[slot as int],
                FrameAction::Submit { slot, .. } => slot == v.current_slot && !n.slot_pending[slot as int],
                _ => true,
            }
        }),
        forall|s: int|
            0 <= s < v.frames_in_flight && v.slot_pending[s] && !(#[trigger] step_spec(v, ev).0.slot_pending[s])
                ==> ev == FrameEvent::FenceWaited(WaitOutcome::Signaled) && awaited_slot(v) == Some(s as usize),
{
}

/// Image-fence correctness: when the acquired image was last rendered into by a submission
/// that may still run, the scheduler waits on that submission's fence first; and it hands
/// out an image for recording or submission only once no submission into it may still run.
pub proof fn lemma_image_fence_correct(v: SchedulerView, ev: FrameEvent)
    requires
        wf(v),
        accepts(v, ev),
    ensures
        ({
            let (n, a) = step_spec(v, ev);
            match a {
                FrameAction::RecordImage { image, .. } => image < n.image_owner.len() && image_free(n, image as int),
                FrameAction::Submit { image, .. } => image < n.image_owner.len() && image_free(n, image as int),
                _ => true,
            }
        }),
        ({
            match ev {
                FrameEvent::Acquired { image, status } => status == DeviceStatus::Success && image < v.image_owner.len()
                    && busy_owner(v, image as int) is Some
                    ==> step_spec(v, ev).1 == FrameAction::WaitFence { slot: busy_owner(v, image as int)->0 },
                _ => true,
            }
        }),
{
}

/// Shutdown waits on exactly the fences that are still pending, each once, leaves nothing
/// pending, and a second shutdown waits on nothing.
pub proof fn lemma_shutdown_exact(v: SchedulerView)
    requires
        wf(v),
    ensures
        forall|s: usize| #[trigger] shutdown_spec(v).1.contains(s) <==> s < v.frames_in_flight && v.slot_pending[s as int],
        shutdown_spec(v).1.no_duplicates(),
        wf(shutdown_spec(v).0),
        shutdown_spec(shutdown_spec(v).0).1 == Seq::<usize>::empty(),
{
    let p = v.slot_pending;
    lemma_pending_slots(p);
    let w = shutdown_spec(v).1;
    assert forall|s: usize| #[trigger] w.contains(s) <==> s < v.frames_in_flight && v.slot_pending[s as int] by {
        if w.contains(s) {
            let k = choose|k: int| 0 <= k < w.len() && w[k] == s;
            assert(p[w[k] as int]);
        }
        if s < v.frames_in_flight && v.slot_pending[s as int] {
            assert(p[s as int]);
        }
    }
    assert forall|i: int, j: int| 0 <= i < w.len() && 0 <= j < w.len() && i != j implies w[i] != w[j] by {
        if i < j {
            assert(w[i] < w[j]);
        } else {
            assert(w[j] < w[i]);
        }
    }
    let q = shutdown_spec(v).0.slot_pending;
    lemma_pending_slots(q);
    if pending_slots(q).len() > 0 {
        assert(q[pending_slots(q)[0] as int]);
    }
}

/// A scheduler that has run no frame has nothing to wait on at shutdown.
pub proof fn lemma_shutdown_fresh(frames_in_flight: nat, image_count: nat)
    requires
        1 <= frames_in_flight <= image_count,
        frames_in_flight <= usize::MAX,
    ensures
        shutdown_spec(initial(frames_in_flight, image_count)).1 == Seq::<usize>::empty(),
{
    let p = initial(frames_in_flight, image_count).slot_pending;
    lemma_pending_slots(p);
    if pending_slots(p).len() > 0 {
        assert(p[pending_slots(p)[0] as int]);
    }
}

} // verus!
