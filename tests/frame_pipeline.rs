use rot_vk_renderer::coordinator::{
    AcquireResult, Action, Coordinator, FrameError, InitError, Phase, PresentResult,
};
use rot_vk_renderer::resources::{Extent, RecordTarget, ResourceError, ResourceSet, Teardown};
use rot_vk_renderer::sync_registry::SyncError;
use rot_vk_renderer::sync_usage::FenceUsage;

const SWAPCHAIN: u64 = 900;

fn extent(width: u32, height: u32) -> Extent {
    Extent { width, height }
}

/// Image `i` of generation `g` uses image 100g+i, view 200..., framebuffer
/// 300..., command buffer 400... (plus 1000 * g).
fn resources(images: u64, g: u64) -> ResourceSet {
    let base = 1000 * g;
    let list = |k: u64| (0..images).map(|i| base + k * 100 + i).collect::<Vec<u64>>();
    ResourceSet::assemble(
        SWAPCHAIN + base,
        list(1),
        list(2),
        list(3),
        list(4),
        None,
        extent(800, 600),
    )
    .unwrap()
}

/// Slot `s` uses semaphores 10+s / 20+s and fence 30+s.
fn coordinator(frames: u8, images: u64) -> Coordinator {
    let n = frames as u64;
    let mut c = Coordinator::initialize(
        frames,
        (0..n).map(|s| 10 + s).collect(),
        (0..n).map(|s| 20 + s).collect(),
        (0..n).map(|s| 30 + s).collect(),
        resources(images, 0),
        extent(800, 600),
    )
    .unwrap();
    assert_eq!(c.recorded(), Ok(Action::FrameDone));
    c
}

/// Drives one whole frame that presents `image`; returns the submit action.
fn run_frame(c: &mut Coordinator, image: usize) -> Action {
    let mut action = c.draw_frame().unwrap();
    let mut submit = None;
    loop {
        action = match action {
            Action::WaitForFence(_) => c.fence_signaled().unwrap(),
            Action::AcquireImage { .. } => c.acquired(AcquireResult::Image(image)).unwrap(),
            Action::Submit { .. } => {
                submit = Some(action.clone());
                c.submitted().unwrap()
            }
            Action::Present { .. } => c.presented(PresentResult::Presented).unwrap(),
            Action::FrameDone => break,
            other => panic!("unexpected action {:?}", other),
        };
    }
    submit.unwrap()
}

#[test]
fn five_frames_two_slots_three_images() {
    let mut c = coordinator(2, 3);
    let mut slots = Vec::new();
    let mut submits = Vec::new();
    for k in 0..5usize {
        slots.push(c.slot());
        submits.push(run_frame(&mut c, k % 3));
    }
    assert_eq!(slots, vec![0, 1, 0, 1, 0]);
    assert_eq!(submits.len(), 5);
    for (k, s) in submits.iter().enumerate() {
        let slot = slots[k] as u64;
        // The fence reset right before the submission is the one it signals:
        // the slot's own fence, once per submission.
        assert_eq!(
            *s,
            Action::Submit {
                fence: 30 + slot,
                command_buffer: 400 + (k as u64 % 3),
                wait_semaphore: 10 + slot,
                signal_semaphore: 20 + slot,
            }
        );
    }
    assert_eq!(c.slot(), 1);
    assert_eq!(c.phase(), Phase::Idle);
}

#[test]
fn frame_protocol_step_by_step() {
    let mut c = coordinator(2, 3);
    assert_eq!(c.draw_frame(), Ok(Action::WaitForFence(30)));
    assert_eq!(c.phase(), Phase::WaitingOnSlotFence);
    assert_eq!(
        c.fence_signaled(),
        Ok(Action::AcquireImage { swapchain: SWAPCHAIN, semaphore: 10 })
    );
    let submit = c.acquired(AcquireResult::Image(2)).unwrap();
    assert_eq!(
        submit,
        Action::Submit { fence: 30, command_buffer: 402, wait_semaphore: 10, signal_semaphore: 20 }
    );
    assert_eq!(c.registry().fence(FenceUsage::ImageAvailable(2)), Ok(Some(30)));
    assert_eq!(
        c.submitted(),
        Ok(Action::Present { swapchain: SWAPCHAIN, image: 2, wait_semaphore: 20 })
    );
    assert_eq!(c.presented(PresentResult::Presented), Ok(Action::FrameDone));
    assert_eq!(c.slot(), 1);
}

#[test]
fn out_of_date_on_third_acquire_rebuilds() {
    let mut c = coordinator(2, 3);
    run_frame(&mut c, 0);
    run_frame(&mut c, 1);
    let generation = c.generation();
    let slot = c.slot();
    assert_eq!(slot, 0);

    assert_eq!(c.draw_frame(), Ok(Action::WaitForFence(30)));
    assert!(matches!(c.fence_signaled(), Ok(Action::AcquireImage { .. })));
    let rebuild = c.acquired(AcquireResult::OutOfDate).unwrap();
    // The rebuild comes before any submission of this iteration.
    match rebuild {
        Action::Rebuild { teardown, extent: e } => {
            assert_eq!(teardown[0], Teardown::WaitIdle);
            assert_eq!(e, extent(800, 600));
        }
        other => panic!("expected a rebuild, got {:?}", other),
    }
    assert_eq!(c.phase(), Phase::Rebuilding);
    assert_eq!(c.submitted(), Err(FrameError::OutOfOrder));

    let targets = match c.rebuilt(resources(3, 1)).unwrap() {
        Action::Record(t) => t,
        other => panic!("expected recording, got {:?}", other),
    };
    assert_eq!(targets.len(), 3);
    assert_eq!(c.recorded(), Ok(Action::FrameDone));
    assert_ne!(c.generation(), generation);
    assert_eq!(c.generation(), generation + 1);

    // The aborted attempt is retried from the same slot, and the counter
    // moves on from there.
    assert_eq!(c.slot(), slot);
    let submit = run_frame(&mut c, 0);
    assert_eq!(
        submit,
        Action::Submit { fence: 30, command_buffer: 1400, wait_semaphore: 10, signal_semaphore: 20 }
    );
    assert_eq!(c.slot(), 1);
    run_frame(&mut c, 1);
    assert_eq!(c.slot(), 0);
}

#[test]
fn zero_area_resize_suspends_then_rebuilds() {
    let mut c = coordinator(2, 3);
    c.notify_resize(extent(0, 600));
    assert_eq!(c.draw_frame(), Ok(Action::Suspended));
    assert!(c.is_suspended());
    assert_eq!(c.phase(), Phase::Idle);
    assert_eq!(c.draw_frame(), Ok(Action::Suspended));
    assert_eq!(c.slot(), 0);

    c.notify_resize(extent(1024, 768));
    assert!(!c.is_suspended());
    match c.draw_frame().unwrap() {
        Action::Rebuild { extent: e, .. } => assert_eq!(e, extent(1024, 768)),
        other => panic!("expected a rebuild, got {:?}", other),
    }
    assert!(matches!(c.rebuilt(resources(2, 1)), Ok(Action::Record(_))));
    assert_eq!(c.recorded(), Ok(Action::FrameDone));
    assert!(!c.rebuild_pending());
    assert_eq!(c.resources().image_count(), 2);
}

#[test]
fn stale_swapchain_on_zero_area_surface_waits() {
    let mut c = coordinator(2, 3);
    c.notify_resize(extent(0, 0));
    assert_eq!(c.draw_frame(), Ok(Action::Suspended));
    c.notify_resize(extent(640, 0));
    assert_eq!(c.draw_frame(), Ok(Action::Suspended));
    assert_eq!(c.generation(), 0);
}

#[test]
fn in_flight_never_exceeds_frames() {
    let mut c = coordinator(2, 3);
    assert_eq!(c.in_flight(), 0);
    let mut image = 0usize;
    for _ in 0..7 {
        let mut action = c.draw_frame().unwrap();
        loop {
            assert!(c.in_flight() <= 2);
            action = match action {
                Action::WaitForFence(_) => c.fence_signaled().unwrap(),
                Action::AcquireImage { .. } => c.acquired(AcquireResult::Image(image)).unwrap(),
                Action::Submit { .. } => c.submitted().unwrap(),
                Action::Present { .. } => c.presented(PresentResult::Presented).unwrap(),
                Action::FrameDone => break,
                other => panic!("unexpected action {:?}", other),
            };
        }
        image = (image + 1) % 2;
    }
    // Each slot has exactly one unfinished submission: the bound is reached.
    assert_eq!(c.in_flight(), 2);
}

#[test]
fn image_owned_by_one_slot_at_a_time() {
    let mut c = coordinator(2, 3);
    run_frame(&mut c, 0);
    assert_eq!(c.registry().owner(0), Some(0));
    // Slot 1 acquires the same image: it must wait on slot 0's fence first.
    assert_eq!(c.draw_frame(), Ok(Action::WaitForFence(31)));
    c.fence_signaled().unwrap();
    assert_eq!(c.acquired(AcquireResult::Image(0)), Ok(Action::WaitForFence(30)));
    assert_eq!(c.phase(), Phase::WaitingOnImageFence(0));
    assert_eq!(c.in_flight(), 1);
    assert!(matches!(c.fence_signaled(), Ok(Action::Submit { fence: 31, .. })));
    assert_eq!(c.registry().owner(0), Some(1));
    assert_eq!(c.registry().fence(FenceUsage::ImageAvailable(0)), Ok(Some(31)));
    assert_eq!(c.in_flight(), 1);
    for i in 1..3 {
        assert_eq!(c.registry().owner(i), None);
    }
}

#[test]
fn slot_returns_after_frames_in_flight_frames() {
    for frames in 1..5u8 {
        let mut c = coordinator(frames, 3);
        for k in 0..frames as usize {
            assert_eq!(c.slot(), k);
            run_frame(&mut c, k % 3);
        }
        assert_eq!(c.slot(), 0);
    }
}

#[test]
fn rebuild_replaces_the_whole_set() {
    let mut c = coordinator(2, 3);
    run_frame(&mut c, 2);
    run_frame(&mut c, 1);
    c.notify_resize(extent(1280, 720));
    let teardown = match c.draw_frame().unwrap() {
        Action::Rebuild { teardown, .. } => teardown,
        other => panic!("expected a rebuild, got {:?}", other),
    };
    assert_eq!(teardown.len(), 1 + 3 + 3 + 1 + 3 + 1);
    let set = resources(4, 1);
    let targets = match c.rebuilt(set).unwrap() {
        Action::Record(t) => t,
        other => panic!("expected recording, got {:?}", other),
    };
    assert_eq!(
        targets,
        (0..4)
            .map(|i| RecordTarget {
                command_buffer: 1400 + i,
                framebuffer: 1300 + i,
                extent: extent(800, 600),
            })
            .collect::<Vec<_>>()
    );
    assert_eq!(c.in_flight(), 0);
    assert_eq!(c.registry().image_count(), 4);
    assert_eq!(c.resources().image_count(), 4);
    for i in 0..4 {
        assert_eq!(c.registry().fence(FenceUsage::ImageAvailable(i)), Ok(None));
    }
    assert_eq!(
        c.registry().fence(FenceUsage::ImageAvailable(4)),
        Err(SyncError::Unregistered)
    );
    c.recorded().unwrap();
    for i in 0..4usize {
        match run_frame(&mut c, i) {
            Action::Submit { command_buffer, .. } => assert_eq!(command_buffer, 1400 + i as u64),
            other => panic!("unexpected action {:?}", other),
        }
    }
}

#[test]
fn suboptimal_present_advances_and_rebuilds() {
    let mut c = coordinator(3, 3);
    c.draw_frame().unwrap();
    c.fence_signaled().unwrap();
    c.acquired(AcquireResult::Image(1)).unwrap();
    c.submitted().unwrap();
    let action = c.presented(PresentResult::Suboptimal).unwrap();
    assert!(matches!(action, Action::Rebuild { .. }));
    assert_eq!(c.slot(), 1);
    assert_eq!(c.phase(), Phase::Rebuilding);
}

#[test]
fn out_of_date_present_advances_and_rebuilds() {
    let mut c = coordinator(2, 3);
    c.draw_frame().unwrap();
    c.fence_signaled().unwrap();
    c.acquired(AcquireResult::Image(0)).unwrap();
    c.submitted().unwrap();
    assert!(matches!(c.presented(PresentResult::OutOfDate), Ok(Action::Rebuild { .. })));
    assert_eq!(c.slot(), 1);
}

#[test]
fn calls_out_of_order_are_refused() {
    let mut c = coordinator(2, 3);
    assert_eq!(c.fence_signaled(), Err(FrameError::OutOfOrder));
    assert_eq!(c.acquired(AcquireResult::Image(0)), Err(FrameError::OutOfOrder));
    assert_eq!(c.submitted(), Err(FrameError::OutOfOrder));
    assert_eq!(c.presented(PresentResult::Presented), Err(FrameError::OutOfOrder));
    assert_eq!(c.recorded(), Err(FrameError::OutOfOrder));
    assert_eq!(c.rebuilt(resources(3, 1)), Err(FrameError::OutOfOrder));
    c.draw_frame().unwrap();
    assert_eq!(c.draw_frame(), Err(FrameError::OutOfOrder));
    assert_eq!(c.phase(), Phase::WaitingOnSlotFence);
}

#[test]
fn image_index_beyond_swapchain_is_refused() {
    let mut c = coordinator(2, 3);
    c.draw_frame().unwrap();
    c.fence_signaled().unwrap();
    assert_eq!(c.acquired(AcquireResult::Image(3)), Err(FrameError::ImageOutOfRange));
    assert_eq!(c.phase(), Phase::Acquiring);
}

#[test]
fn draw_before_recording_is_refused() {
    let mut c = Coordinator::initialize(
        1,
        vec![1],
        vec![2],
        vec![3],
        resources(2, 0),
        extent(10, 10),
    )
    .unwrap();
    assert_eq!(c.phase(), Phase::Recording);
    assert_eq!(c.draw_frame(), Err(FrameError::OutOfOrder));
}

#[test]
fn initialize_errors() {
    let err = |frames: u8, a: Vec<u64>, b: Vec<u64>, f: Vec<u64>| {
        Coordinator::initialize(frames, a, b, f, resources(2, 0), extent(1, 1)).err()
    };
    assert_eq!(err(0, vec![], vec![], vec![]), Some(InitError::NoFrameSlots));
    assert_eq!(
        err(2, vec![1, 2], vec![3, 4], vec![5]),
        Some(InitError::Sync(SyncError::HandleCountMismatch))
    );
    assert_eq!(
        err(2, vec![1, 2], vec![3], vec![5, 6]),
        Some(InitError::Sync(SyncError::HandleCountMismatch))
    );
    assert_eq!(
        err(2, vec![1, 2], vec![3, 4], vec![5, 5]),
        Some(InitError::Sync(SyncError::DuplicateFence))
    );
    assert_eq!(err(2, vec![1, 2], vec![3, 4], vec![5, 6]), None);
}

#[test]
fn resource_set_errors() {
    let e = extent(1, 1);
    assert_eq!(
        ResourceSet::assemble(1, vec![1, 2], vec![1, 2], vec![1], vec![1, 2], None, e).err(),
        Some(ResourceError::LengthMismatch)
    );
    assert_eq!(
        ResourceSet::assemble(1, vec![1], vec![1], vec![1], vec![1, 2], None, e).err(),
        Some(ResourceError::LengthMismatch)
    );
    assert_eq!(
        ResourceSet::assemble(1, vec![], vec![], vec![], vec![], None, e).err(),
        Some(ResourceError::NoImages)
    );
}

#[test]
fn teardown_destroys_consumers_first() {
    let set = ResourceSet::assemble(
        9,
        vec![1, 2],
        vec![11, 12],
        vec![21, 22],
        vec![31, 32],
        Some(40),
        extent(5, 5),
    )
    .unwrap();
    assert_eq!(
        set.teardown(),
        vec![
            Teardown::WaitIdle,
            Teardown::DestroyFramebuffer(21),
            Teardown::DestroyFramebuffer(22),
            Teardown::FreeCommandBuffer(31),
            Teardown::FreeCommandBuffer(32),
            Teardown::DestroyPipeline,
            Teardown::DestroyImageView(11),
            Teardown::DestroyImageView(12),
            Teardown::DestroyDepthBuffer(40),
            Teardown::DestroySwapchain(9),
        ]
    );
}

#[test]
fn shutdown_order() {
    let c = Coordinator::initialize(
        2,
        vec![10, 11],
        vec![20, 21],
        vec![30, 31],
        ResourceSet::assemble(9, vec![1], vec![2], vec![3], vec![4], None, extent(1, 1)).unwrap(),
        extent(1, 1),
    )
    .unwrap();
    assert_eq!(
        c.shutdown(),
        vec![
            Teardown::WaitIdle,
            Teardown::DestroyFramebuffer(3),
            Teardown::FreeCommandBuffer(4),
            Teardown::DestroyPipeline,
            Teardown::DestroyImageView(2),
            Teardown::DestroySwapchain(9),
            Teardown::DestroySemaphore(10),
            Teardown::DestroySemaphore(11),
            Teardown::DestroySemaphore(20),
            Teardown::DestroySemaphore(21),
            Teardown::DestroyFence(30),
            Teardown::DestroyFence(31),
            Teardown::DestroyDevice,
        ]
    );
}

#[test]
fn generation_wraps_without_repeating_the_current_one() {
    let mut c = coordinator(1, 1);
    for g in 1..4u64 {
        c.notify_resize(extent(2, 2));
        assert!(matches!(c.draw_frame(), Ok(Action::Rebuild { .. })));
        c.rebuilt(resources(1, g)).unwrap();
        c.recorded().unwrap();
        assert_eq!(c.generation(), g);
    }
}
