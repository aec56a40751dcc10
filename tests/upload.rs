use frame_sync::{
    barrier_between, plan_upload, Access, Barrier, DeviceCommand, ImageLayout, PipelineStage, SubmitOutcome,
    UploadAction, UploadCoordinator, UploadError, UploadEvent, UploadPhase, UploadTarget,
};

/// A device holding one destination resource, with a clock that ticks on each operation.
struct SimDevice {
    is_image: bool,
    layout: ImageLayout,
    dest: Vec<u8>,
    staging: Option<Vec<u8>>,
    clock: u64,
    copy_completed_at: Option<u64>,
    released_at: Option<u64>,
}

const GARBAGE: u8 = 0xEE;

impl SimDevice {
    fn new(target: UploadTarget, len: usize) -> SimDevice {
        let layout = match target {
            UploadTarget::Buffer => ImageLayout::General,
            UploadTarget::Image { old_layout, .. } => old_layout,
        };
        SimDevice {
            is_image: matches!(target, UploadTarget::Image { .. }),
            layout,
            dest: vec![0x11; len],
            staging: None,
            clock: 0,
            copy_completed_at: None,
            released_at: None,
        }
    }

    fn tick(&mut self) -> u64 {
        self.clock += 1;
        self.clock
    }

    fn run(&mut self, c: DeviceCommand) {
        let now = self.tick();
        match c {
            DeviceCommand::Transition(b) => {
                if b.from == ImageLayout::Undefined || b.from != self.layout {
                    self.dest.iter_mut().for_each(|x| *x = GARBAGE);
                }
                self.layout = b.to;
            }
            DeviceCommand::Copy { size } => {
                let staged = self.staging.as_ref().expect("copy from a released staging buffer");
                assert_eq!(staged.len(), size);
                if !self.is_image || self.layout == ImageLayout::TransferDst {
                    self.dest = staged.clone();
                } else {
                    self.dest = vec![GARBAGE; size];
                }
                self.copy_completed_at = Some(now);
            }
        }
    }
}

/// Drives an upload of `payload` to completion on `dev`.
fn upload(payload: &[u8], target: UploadTarget, dev: &mut SimDevice) -> Result<(), UploadError> {
    let mut u = UploadCoordinator::new(payload.len(), target)?;
    let mut a = u.step(UploadEvent::Begin);
    loop {
        a = match a {
            UploadAction::CreateStaging { size } => {
                assert_eq!(size, payload.len());
                dev.staging = Some(payload.to_vec());
                u.step(UploadEvent::StagingReady(true))
            }
            UploadAction::Run(c) => {
                dev.run(c);
                u.step(UploadEvent::Completed(SubmitOutcome::Completed))
            }
            UploadAction::ReleaseStaging => {
                dev.staging = None;
                dev.released_at = Some(dev.tick());
                u.step(UploadEvent::Released)
            }
            UploadAction::Finish(r) => return r,
        };
    }
}

fn texture() -> UploadTarget {
    UploadTarget::Image { old_layout: ImageLayout::Undefined, new_layout: ImageLayout::ShaderReadOnly }
}

fn payload(len: usize) -> Vec<u8> {
    (0..len).map(|i| (i * 7 + 3) as u8).collect()
}

#[test]
fn barrier_into_transfer_destination() {
    let b = barrier_between(ImageLayout::Undefined, ImageLayout::TransferDst);
    assert_eq!(
        b,
        Barrier {
            from: ImageLayout::Undefined,
            to: ImageLayout::TransferDst,
            src_stage: PipelineStage::TopOfPipe,
            dst_stage: PipelineStage::Transfer,
            src_access: Access::NoAccess,
            dst_access: Access::TransferWrite,
        }
    );
}

#[test]
fn barrier_into_shader_read() {
    let b = barrier_between(ImageLayout::TransferDst, ImageLayout::ShaderReadOnly);
    assert_eq!(b.src_stage, PipelineStage::Transfer);
    assert_eq!(b.dst_stage, PipelineStage::FragmentShader);
    assert_eq!(b.src_access, Access::TransferWrite);
    assert_eq!(b.dst_access, Access::ShaderRead);
}

#[test]
fn texture_plan_is_barrier_copy_barrier() {
    let plan = plan_upload(texture(), 4096);
    assert_eq!(
        plan,
        vec![
            DeviceCommand::Transition(barrier_between(ImageLayout::Undefined, ImageLayout::TransferDst)),
            DeviceCommand::Copy { size: 4096 },
            DeviceCommand::Transition(barrier_between(ImageLayout::TransferDst, ImageLayout::ShaderReadOnly)),
        ]
    );
}

#[test]
fn buffer_plan_is_one_copy() {
    assert_eq!(plan_upload(UploadTarget::Buffer, 12), vec![DeviceCommand::Copy { size: 12 }]);
}

#[test]
fn empty_buffer_upload_does_nothing() {
    assert_eq!(plan_upload(UploadTarget::Buffer, 0), Vec::new());
    let mut u = UploadCoordinator::new(0, UploadTarget::Buffer).unwrap();
    assert_eq!(u.step(UploadEvent::Begin), UploadAction::Finish(Ok(())));
    assert!(!u.holds_staging());
}

#[test]
fn empty_image_upload_still_transitions() {
    let plan = plan_upload(texture(), 0);
    assert_eq!(plan.len(), 2);
    let mut dev = SimDevice::new(texture(), 0);
    assert_eq!(upload(&[], texture(), &mut dev), Ok(()));
    assert_eq!(dev.layout, ImageLayout::ShaderReadOnly);
    assert_eq!(dev.released_at, None);
}

#[test]
fn image_already_in_transfer_layout_skips_first_barrier() {
    let t = UploadTarget::Image { old_layout: ImageLayout::TransferDst, new_layout: ImageLayout::TransferDst };
    assert_eq!(plan_upload(t, 5), vec![DeviceCommand::Copy { size: 5 }]);
}

#[test]
fn image_may_not_end_undefined() {
    let t = UploadTarget::Image { old_layout: ImageLayout::Undefined, new_layout: ImageLayout::Undefined };
    assert_eq!(UploadCoordinator::new(16, t).err(), Some(UploadError::InvalidRequest));
}

#[test]
fn upload_delivers_payload_bytes() {
    for len in [0usize, 1, 4096, 1000] {
        for target in [texture(), UploadTarget::Buffer] {
            let p = payload(len);
            let mut dev = SimDevice::new(target, len);
            assert_eq!(upload(&p, target, &mut dev), Ok(()));
            assert_eq!(dev.dest, p);
            if let UploadTarget::Image { new_layout, .. } = target {
                assert_eq!(dev.layout, new_layout);
            }
        }
    }
}

#[test]
fn reupload_into_sampled_image() {
    let t = UploadTarget::Image { old_layout: ImageLayout::ShaderReadOnly, new_layout: ImageLayout::ShaderReadOnly };
    let p = payload(64);
    let mut dev = SimDevice::new(t, 64);
    assert_eq!(upload(&p, t, &mut dev), Ok(()));
    assert_eq!(dev.dest, p);
    assert_eq!(dev.layout, ImageLayout::ShaderReadOnly);
}

#[test]
fn staging_released_after_copy_completes() {
    for len in [1usize, 4096] {
        let mut dev = SimDevice::new(texture(), len);
        upload(&payload(len), texture(), &mut dev).unwrap();
        let copied = dev.copy_completed_at.unwrap();
        let released = dev.released_at.unwrap();
        assert!(released >= copied);
        assert!(dev.staging.is_none());
    }
}

#[test]
fn step_sequence_of_texture_upload() {
    let mut u = UploadCoordinator::new(8, texture()).unwrap();
    assert_eq!(u.step(UploadEvent::Begin), UploadAction::CreateStaging { size: 8 });
    assert_eq!(u.phase(), UploadPhase::Staging);
    let plan = u.plan().clone();
    assert_eq!(u.step(UploadEvent::StagingReady(true)), UploadAction::Run(plan[0]));
    assert!(u.holds_staging());
    assert_eq!(u.step(UploadEvent::Completed(SubmitOutcome::Completed)), UploadAction::Run(plan[1]));
    assert_eq!(u.step(UploadEvent::Completed(SubmitOutcome::Completed)), UploadAction::Run(plan[2]));
    assert_eq!(u.step(UploadEvent::Completed(SubmitOutcome::Completed)), UploadAction::ReleaseStaging);
    assert_eq!(u.phase(), UploadPhase::Releasing { failed: false });
    assert_eq!(u.step(UploadEvent::Released), UploadAction::Finish(Ok(())));
    assert!(!u.holds_staging());
    assert_eq!(u.phase(), UploadPhase::Done);
}

#[test]
fn allocation_failure_aborts_upload() {
    let mut u = UploadCoordinator::new(8, texture()).unwrap();
    u.step(UploadEvent::Begin);
    let a = u.step(UploadEvent::StagingReady(false));
    assert_eq!(a, UploadAction::Finish(Err(UploadError::AllocationFailure)));
    assert!(!u.holds_staging());
}

#[test]
fn failure_before_copy_releases_staging() {
    let mut u = UploadCoordinator::new(8, texture()).unwrap();
    u.step(UploadEvent::Begin);
    u.step(UploadEvent::StagingReady(true));
    assert_eq!(u.step(UploadEvent::Completed(SubmitOutcome::Failed)), UploadAction::ReleaseStaging);
    assert_eq!(u.step(UploadEvent::Released), UploadAction::Finish(Err(UploadError::DeviceLost)));
    assert!(!u.holds_staging());
}

#[test]
fn failure_during_copy_keeps_staging() {
    let mut u = UploadCoordinator::new(8, UploadTarget::Buffer).unwrap();
    u.step(UploadEvent::Begin);
    assert_eq!(u.step(UploadEvent::StagingReady(true)), UploadAction::Run(DeviceCommand::Copy { size: 8 }));
    let a = u.step(UploadEvent::Completed(SubmitOutcome::Failed));
    assert_eq!(a, UploadAction::Finish(Err(UploadError::DeviceLost)));
    assert!(u.holds_staging());
}

#[test]
fn failure_after_copy_releases_staging() {
    let mut u = UploadCoordinator::new(8, texture()).unwrap();
    u.step(UploadEvent::Begin);
    u.step(UploadEvent::StagingReady(true));
    u.step(UploadEvent::Completed(SubmitOutcome::Completed));
    u.step(UploadEvent::Completed(SubmitOutcome::Completed));
    assert_eq!(u.step(UploadEvent::Completed(SubmitOutcome::Failed)), UploadAction::ReleaseStaging);
    assert_eq!(u.step(UploadEvent::Released), UploadAction::Finish(Err(UploadError::DeviceLost)));
}

#[test]
fn empty_upload_failure_has_nothing_to_release() {
    let mut u = UploadCoordinator::new(0, texture()).unwrap();
    u.step(UploadEvent::Begin);
    let a = u.step(UploadEvent::Completed(SubmitOutcome::Failed));
    assert_eq!(a, UploadAction::Finish(Err(UploadError::DeviceLost)));
}

#[test]
fn upload_accepts_only_the_answer_to_the_last_action() {
    let mut u = UploadCoordinator::new(8, texture()).unwrap();
    assert!(u.accepts(UploadEvent::Begin));
    assert!(!u.accepts(UploadEvent::Released));
    u.step(UploadEvent::Begin);
    assert!(u.accepts(UploadEvent::StagingReady(true)));
    assert!(!u.accepts(UploadEvent::Completed(SubmitOutcome::Completed)));
}
