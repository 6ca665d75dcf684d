use ash::vk;
use ash::vk::Handle;
use cupio::context::GpuContextDispatcher;
use cupio::frame::{FrameCoordinator, FrameError, FramePhase, FrameStep, SubmitSync, STEPS_PER_FRAME};

const ONE_FRAME: [FrameStep; 7] = [
    FrameStep::WaitForFence,
    FrameStep::ResetFence,
    FrameStep::ResetCommandBuffer,
    FrameStep::BeginRecording,
    FrameStep::Record,
    FrameStep::EndRecording,
    FrameStep::Submit,
];

#[test]
fn steps_repeat_in_protocol_order() {
    let mut c = FrameCoordinator::new();
    assert_eq!(c.phase(), FramePhase::Idle);
    let mut seen = Vec::new();
    for _ in 0..3 * STEPS_PER_FRAME {
        assert_eq!(c.next_step(), ONE_FRAME[seen.len() % 7]);
        seen.push(c.advance());
    }
    for (i, s) in seen.iter().enumerate() {
        assert_eq!(*s, ONE_FRAME[i % 7]);
    }
    assert_eq!(c.phase(), FramePhase::Idle);
}

#[test]
fn submits_and_waits_alternate() {
    let mut c = FrameCoordinator::new();
    let steps: Vec<FrameStep> = (0..5 * STEPS_PER_FRAME).map(|_| c.advance()).collect();
    let sync: Vec<FrameStep> = steps
        .into_iter()
        .filter(|s| matches!(s, FrameStep::WaitForFence | FrameStep::Submit))
        .collect();
    for (i, s) in sync.iter().enumerate() {
        let expected = if i % 2 == 0 { FrameStep::WaitForFence } else { FrameStep::Submit };
        assert_eq!(*s, expected);
    }
    assert_eq!(sync.len(), 10);
}

#[test]
fn phase_is_recording_between_wait_and_submit() {
    let mut c = FrameCoordinator::new();
    assert_eq!(c.advance(), FrameStep::WaitForFence);
    assert_eq!(c.phase(), FramePhase::Recording);
}

#[test]
fn wait_masks_must_match_wait_semaphores() {
    let s = vk::Semaphore::from_raw(1);
    let r = SubmitSync::new(vec![0x400, 0x400], vec![s], vec![]);
    assert_eq!(r.err(), Some(FrameError::WaitMaskMismatch));
    let ok = SubmitSync::new(vec![0x400], vec![s], vec![vk::Semaphore::from_raw(2)]).ok().unwrap();
    assert_eq!(ok.wait_stage_masks(), &[0x400]);
    assert_eq!(ok.wait_semaphores(), &[s]);
    assert_eq!(ok.signal_semaphores(), &[vk::Semaphore::from_raw(2)]);
}

#[test]
fn dispatcher_exposes_the_vulkan_context_only() {
    let d = GpuContextDispatcher::vulkan(42u32);
    assert!(d.is_vulkan());
    assert_eq!(d.vulkan_context(), Some(&42));
    assert_eq!(d.into_vulkan_context(), Some(42));
    let g = GpuContextDispatcher::<u32>::open_gl();
    assert!(!g.is_vulkan());
    assert_eq!(g.vulkan_context(), None);
}
