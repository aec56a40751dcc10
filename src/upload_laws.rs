use vstd::prelude::*;

use crate::barrier::ImageLayout;
use crate::status::UploadError;
use crate::upload::{
    is_copy, plan_after_copy, plan_before_copy, plan_copy, upload_accepts, upload_plan,
    upload_step, upload_wf, valid_target, DeviceCommand, UploadAction, UploadEvent, UploadPhase, UploadTarget,
    UploadView,
};

verus! {

/// What the device holds for the destination: its layout (meaningful for images) and the
/// bytes of the uploaded region, or `None` where they are undefined.
pub struct Resource {
    pub layout: ImageLayout,
    pub contents: Option<Seq<u8>>,
}

/// The effect of one completed command on the destination, with `staged` in the staging
/// buffer. A transition out of `Undefined`, or out of a layout the image is not in, leaves
/// the contents undefined; a copy into an image that is not in `TransferDst` does too.
pub open spec fn execute(d: Resource, c: DeviceCommand, is_image: bool, staged: Seq<u8>) -> Resource {
    match c {
        DeviceCommand::Transition(b) => Resource {
            layout: b.to,
            contents: if b.from == ImageLayout::Undefined || d.layout != b.from { None } else { d.contents },
        },
        DeviceCommand::Copy { .. } => Resource {
            layout: d.layout,
            contents: if !is_image || d.layout == ImageLayout::TransferDst { Some(staged) } else { None },
        },
    }
}

/// The effect of completed commands, one after the other.
pub open spec fn execute_all(d: Resource, cs: Seq<DeviceCommand>, is_image: bool, staged: Seq<u8>) -> Resource
    decreases cs.len(),
{
    if cs.len() == 0 {
        d
    } else {
        execute_all(execute(d, cs[0], is_image, staged), cs.drop_first(), is_image, staged)
    }
}

proof fn lemma_execute_append(d: Resource, a: Seq<DeviceCommand>, b: Seq<DeviceCommand>, is_image: bool, staged: Seq<u8>)
    ensures
        execute_all(d, a + b, is_image, staged) == execute_all(execute_all(d, a, is_image, staged), b, is_image, staged),
    decreases a.len(),
{
    if a.len() > 0 {
        assert((a + b).drop_first() =~= a.drop_first() + b);
        lemma_execute_append(execute(d, a[0], is_image, staged), a.drop_first(), b, is_image, staged);
    } else {
        assert(a + b =~= b);
    }
}

proof fn lemma_execute_one(d: Resource, c: DeviceCommand, is_image: bool, staged: Seq<u8>)
    ensures
        execute_all(d, seq![c], is_image, staged) == execute(d, c, is_image, staged),
{
    let e = execute(d, c, is_image, staged);
    assert(seq![c].drop_first() =~= Seq::<DeviceCommand>::empty());
    assert(execute_all(e, Seq::<DeviceCommand>::empty(), is_image, staged) == e);
}

/// Upload ordering: running the plan of an upload of `payload` to a destination in the
/// target's starting layout leaves exactly the bytes of `payload` in it, and leaves an
/// image in the layout it is to be consumed in.
pub proof fn lemma_upload_delivers_payload(t: UploadTarget, payload: Seq<u8>, d: Resource)
    requires
        valid_target(t),
        payload.len() <= usize::MAX,
        t is Image ==> d.layout == t->old_layout,
    ensures
        ({
            let r = execute_all(d, upload_plan(t, payload.len()), t is Image, payload);
            &&& payload.len() > 0 ==> r.contents == Some(payload)
            &&& t is Image ==> r.layout == t->new_layout
        }),
{
    let is_image = t is Image;
    let pre = plan_before_copy(t);
    let cp = plan_copy(payload.len());
    let post = plan_after_copy(t);
    lemma_execute_append(d, pre + cp, post, is_image, payload);
    lemma_execute_append(d, pre, cp, is_image, payload);
    let d1 = execute_all(d, pre, is_image, payload);
    let d2 = execute_all(d1, cp, is_image, payload);
    if pre.len() > 0 {
        lemma_execute_one(d, pre[0], is_image, payload);
        assert(pre =~= seq![pre[0]]);
    }
    if cp.len() > 0 {
        lemma_execute_one(d1, cp[0], is_image, payload);
        assert(cp =~= seq![cp[0]]);
    }
    if post.len() > 0 {
        lemma_execute_one(d2, post[0], is_image, payload);
        assert(post =~= seq![post[0]]);
    }
}

/// Commands run in plan order: each command handed out is the next one of the plan, and
/// a successful upload has seen every command of the plan complete.
pub proof fn lemma_upload_follows_plan(v: UploadView, ev: UploadEvent)
    requires
        upload_wf(v),
        upload_accepts(v, ev),
    ensures
        ({
            let (n, a) = upload_step(v, ev);
            &&& upload_wf(n)
            &&& (a is Run ==> n.completed < n.plan.len() && a->Run_0 == n.plan[n.completed as int])
            &&& (a == UploadAction::Finish(Ok(())) ==> n.completed == n.plan.len())
        }),
{
}

/// Staging lifetime: the staging buffer is released only once the copy from it has been
/// observed complete or was never submitted, and it is alive whenever the copy is handed out.
pub proof fn lemma_staging_outlives_copy(v: UploadView, ev: UploadEvent)
    requires
        upload_wf(v),
        upload_accepts(v, ev),
    ensures
        ({
            let (n, a) = upload_step(v, ev);
            &&& (a == UploadAction::ReleaseStaging ==> n.staging_alive && (n.copy_done || !n.copy_issued))
            &&& (v.staging_alive && !n.staging_alive ==> v.phase is Releasing && ev == UploadEvent::Released)
            &&& (a is Run && is_copy(a->Run_0) ==> n.staging_alive)
        }),
{
}

/// The state after a sequence of events, and the actions handed out on the way, stopping at
/// the first event not accepted.
pub open spec fn upload_run(v: UploadView, evs: Seq<UploadEvent>) -> (UploadView, Seq<UploadAction>)
    decreases evs.len(),
{
    if evs.len() == 0 || !upload_accepts(v, evs[0]) {
        (v, Seq::empty())
    } else {
        let (n, a) = upload_step(v, evs[0]);
        let (m, rest) = upload_run(n, evs.drop_first());
        (m, seq![a] + rest)
    }
}

/// The device commands among `acts`, in order.
pub open spec fn commands_of(acts: Seq<UploadAction>) -> Seq<DeviceCommand>
    decreases acts.len(),
{
    if acts.len() == 0 {
        Seq::empty()
    } else {
        let rest = commands_of(acts.drop_first());
        match acts[0] {
            UploadAction::Run(c) => seq![c] + rest,
            _ => rest,
        }
    }
}

/// How many commands of the plan have been handed out.
pub open spec fn issued(v: UploadView) -> nat {
    if v.phase is Running {
        v.completed + 1
    } else {
        v.completed
    }
}

/// The coordinator as `UploadCoordinator::new` sets it up.
pub open spec fn upload_initial(size: nat, t: UploadTarget) -> UploadView {
    UploadView {
        size,
        target: t,
        plan: upload_plan(t, size),
        phase: UploadPhase::NotStarted,
        completed: 0,
        staging_alive: false,
        copy_issued: false,
        copy_done: false,
    }
}

proof fn lemma_failed_release_ends_in_error(v: UploadView, evs: Seq<UploadEvent>)
    requires
        v.phase == (UploadPhase::Releasing { failed: true }),
    ensures
        upload_run(v, evs).1.len() > 0 ==> upload_run(v, evs).1.last() == UploadAction::Finish(Err(UploadError::DeviceLost)),
{
    if evs.len() > 0 && upload_accepts(v, evs[0]) {
        let (n, a) = upload_step(v, evs[0]);
        let tail = evs.drop_first();
        assert(n.phase is Done);
        if tail.len() > 0 {
            assert(!upload_accepts(n, tail[0]));
        }
        assert(upload_run(n, tail).1 =~= Seq::<UploadAction>::empty());
        assert(upload_run(v, evs).1 =~= seq![a]);
    }
}

proof fn lemma_run_issues_rest_of_plan(v: UploadView, evs: Seq<UploadEvent>)
    requires
        upload_wf(v),
        issued(v) <= v.plan.len(),
        upload_run(v, evs).1.len() > 0,
        upload_run(v, evs).1.last() == UploadAction::Finish(Ok(())),
    ensures
        commands_of(upload_run(v, evs).1) == v.plan.subrange(issued(v) as int, v.plan.len() as int),
    decreases evs.len(),
{
    let (n, a) = upload_step(v, evs[0]);
    let (m, rest) = upload_run(n, evs.drop_first());
    let acts = upload_run(v, evs).1;
    assert(acts == seq![a] + rest);
    assert(acts.drop_first() =~= rest);
    assert(n.plan == v.plan);
    if rest.len() == 0 {
        assert(a == UploadAction::Finish(Ok(())));
        assert(commands_of(rest) =~= Seq::<DeviceCommand>::empty());
        assert(v.plan.subrange(issued(v) as int, v.plan.len() as int) =~= Seq::<DeviceCommand>::empty());
    } else {
        assert(rest.last() == acts.last());
        if a is Finish {
            assert(n.phase is Done);
            assert(!upload_accepts(n, evs.drop_first()[0]));
        }
        assert(!(a is Finish));
        if n.phase == (UploadPhase::Releasing { failed: true }) {
            lemma_failed_release_ends_in_error(n, evs.drop_first());
        }
        assert(issued(n) <= n.plan.len());
        lemma_run_issues_rest_of_plan(n, evs.drop_first());
        match a {
            UploadAction::Run(c) => {
                assert(issued(n) == issued(v) + 1);
                assert(c == v.plan[issued(v) as int]);
                assert(v.plan.subrange(issued(v) as int, v.plan.len() as int) =~= seq![c] + v.plan.subrange(
                    issued(n) as int,
                    v.plan.len() as int,
                ));
            },
            _ => {
                assert(issued(n) == issued(v));
            },
        }
    }
}

/// Upload ordering over a whole run: whatever events an upload is driven through, if it
/// ends in success then the device commands it handed out are exactly its plan, in order.
pub proof fn lemma_successful_upload_runs_plan(size: nat, t: UploadTarget, evs: Seq<UploadEvent>)
    requires
        valid_target(t),
        size <= usize::MAX,
        upload_run(upload_initial(size, t), evs).1.len() > 0,
        upload_run(upload_initial(size, t), evs).1.last() == UploadAction::Finish(Ok(())),
    ensures
        commands_of(upload_run(upload_initial(size, t), evs).1) == upload_plan(t, size),
{
    let v = upload_initial(size, t);
    lemma_run_issues_rest_of_plan(v, evs);
    assert(v.plan.subrange(0, v.plan.len() as int) =~= v.plan);
}

} // verus!
