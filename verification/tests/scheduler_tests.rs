use delfi_engine::scheduler::AcquireDecision;
use delfi_engine::scheduler::AcquireOutcome;
use delfi_engine::scheduler::FrameScheduler;
use delfi_engine::scheduler::PresentOutcome;
use delfi_engine::scheduler::TickStart;
use delfi_engine::surface::SurfaceState;

/// Run one tick whose acquire succeeds cleanly, and return the wait time.
fn run_clean_tick(s: &mut FrameScheduler, image_index: usize, elapsed_nanos: u64) -> u64 {
    assert_eq!(s.begin_tick(), TickStart::Acquire);
    let d = s.on_acquire(AcquireOutcome::Success { image_index, suboptimal: false });
    assert_eq!(d, AcquireDecision::Proceed { image_index });
    s.record_compute();
    s.record_composite();
    s.on_present(PresentOutcome::Presented);
    s.retire_frames(s.in_flight);
    s.end_tick(elapsed_nanos)
}

#[test]
fn target_frame_interval_at_120_fps() {
    let s = FrameScheduler::new(120, 1280, 720, 3, 2);
    assert_eq!(s.target_frame_nanos, 8_333_333);
}

#[test]
fn scenario_steady_frames_at_1280x720() {
    // A 1280x720 surface with 3 presentable images, paced to 120 fps.
    let mut s = FrameScheduler::new(120, 1280, 720, 3, 2);
    for tick in 0..3u64 {
        let image_index = (tick as usize) % 3;
        assert_eq!(s.begin_tick(), TickStart::Acquire);
        let d = s.on_acquire(AcquireOutcome::Success { image_index, suboptimal: false });
        assert_eq!(d, AcquireDecision::Proceed { image_index });
        let grid = s.record_compute();
        assert_eq!(grid, (160, 90, 1));
        s.record_composite();
        s.on_present(PresentOutcome::Presented);
        assert_eq!(s.frames_presented, tick + 1);
        s.retire_frames(s.in_flight);
        // 5 ms of work leaves 8.333 ms - 5 ms to wait
        let wait = s.end_tick(5_000_000);
        assert_eq!(wait, 3_333_333);
        assert_eq!(s.ticks_completed, tick + 1);
    }
    assert_eq!(s.gpu_submissions, 6);
}

#[test]
fn wait_is_floored_at_zero_when_the_frame_ran_long() {
    let mut s = FrameScheduler::new(120, 1280, 720, 3, 2);
    let wait = run_clean_tick(&mut s, 0, 20_000_000);
    assert_eq!(wait, 0);
}

#[test]
fn wait_is_the_full_interval_for_an_instant_frame() {
    let mut s = FrameScheduler::new(60, 1280, 720, 3, 2);
    assert_eq!(s.target_frame_nanos, 16_666_666);
    let wait = run_clean_tick(&mut s, 0, 0);
    assert_eq!(wait, 16_666_666);
}

#[test]
fn scenario_minimized_window_makes_no_submissions() {
    // Surface resized to 0x0: every tick is skipped without touching the
    // GPU, until the extent is restored.
    let mut s = FrameScheduler::new(120, 1280, 720, 3, 2);
    run_clean_tick(&mut s, 0, 1_000_000);
    let submissions_before = s.gpu_submissions;
    let presented_before = s.frames_presented;

    s.notify_resize(0, 0);
    for _ in 0..5 {
        assert_eq!(s.begin_tick(), TickStart::SkipZeroExtent);
        let wait = s.end_tick(100);
        assert_eq!(wait, 8_333_333 - 100);
    }
    assert_eq!(s.gpu_submissions, submissions_before);
    assert_eq!(s.frames_presented, presented_before);

    // Restoring the extent invalidates the surface; the next tick rebuilds
    // the ring and then renders again.
    s.notify_resize(640, 360);
    assert_eq!(s.begin_tick(), TickStart::RecreateFirst);
    s.begin_recreate();
    s.finish_recreate(3);
    assert_eq!(s.surface.state, SurfaceState::Valid);
    assert_eq!(s.surface.surface_extent, (640, 360));
    let d = s.on_acquire(AcquireOutcome::Success { image_index: 0, suboptimal: false });
    assert_eq!(d, AcquireDecision::Proceed { image_index: 0 });
    let grid = s.record_compute();
    assert_eq!(grid, (80, 45, 1));
    s.record_composite();
    s.on_present(PresentOutcome::Presented);
    assert_eq!(s.gpu_submissions, submissions_before + 2);
    assert_eq!(s.frames_presented, presented_before + 1);
    s.end_tick(2_000_000);
}

#[test]
fn scenario_acquire_out_of_date_twice_skips_the_tick() {
    // First out-of-date acquire: recreate once and retry.  Second: give
    // the tick up.  The third tick recovers.
    let mut s = FrameScheduler::new(120, 1280, 720, 3, 2);
    run_clean_tick(&mut s, 0, 1_000_000);
    let submissions_before = s.gpu_submissions;

    assert_eq!(s.begin_tick(), TickStart::Acquire);
    let d = s.on_acquire(AcquireOutcome::OutOfDate);
    assert_eq!(d, AcquireDecision::RecreateAndRetry);
    s.begin_recreate();
    s.finish_recreate(3);
    assert_eq!(s.surface.generation, 1);

    let d = s.on_acquire(AcquireOutcome::OutOfDate);
    assert_eq!(d, AcquireDecision::SkipTick);
    s.end_tick(3_000_000);
    // the surface was recreated once, and the tick submitted nothing
    assert_eq!(s.surface.generation, 1);
    assert_eq!(s.gpu_submissions, submissions_before);

    // third tick: rebuild once more, then acquire successfully
    assert_eq!(s.begin_tick(), TickStart::RecreateFirst);
    s.begin_recreate();
    s.finish_recreate(3);
    assert_eq!(s.surface.generation, 2);
    let d = s.on_acquire(AcquireOutcome::Success { image_index: 1, suboptimal: false });
    assert_eq!(d, AcquireDecision::Proceed { image_index: 1 });
    s.record_compute();
    s.record_composite();
    s.on_present(PresentOutcome::Presented);
    s.end_tick(4_000_000);
    assert_eq!(s.gpu_submissions, submissions_before + 2);
}

#[test]
fn scenario_suboptimal_acquire_still_presents() {
    // A suboptimal acquire renders and presents this frame, and leaves the
    // surface invalidated so the next tick rebuilds before acquiring.
    let mut s = FrameScheduler::new(120, 1280, 720, 3, 2);
    assert_eq!(s.begin_tick(), TickStart::Acquire);
    let d = s.on_acquire(AcquireOutcome::Success { image_index: 2, suboptimal: true });
    assert_eq!(d, AcquireDecision::Proceed { image_index: 2 });
    assert_eq!(s.surface.state, SurfaceState::Invalidated);
    s.record_compute();
    s.record_composite();
    s.on_present(PresentOutcome::Presented);
    assert_eq!(s.frames_presented, 1);
    s.end_tick(1_000_000);

    assert_eq!(s.begin_tick(), TickStart::RecreateFirst);
}

#[test]
fn stale_present_invalidates_for_the_next_tick() {
    let mut s = FrameScheduler::new(120, 1280, 720, 3, 2);
    assert_eq!(s.begin_tick(), TickStart::Acquire);
    s.on_acquire(AcquireOutcome::Success { image_index: 0, suboptimal: false });
    s.record_compute();
    s.record_composite();
    s.on_present(PresentOutcome::OutOfDate);
    // the present call completed, but the ring must be rebuilt
    assert_eq!(s.frames_presented, 1);
    assert_eq!(s.surface.state, SurfaceState::Invalidated);
    s.end_tick(1_000_000);
    assert_eq!(s.begin_tick(), TickStart::RecreateFirst);
}

#[test]
fn suboptimal_present_invalidates_for_the_next_tick() {
    let mut s = FrameScheduler::new(120, 1280, 720, 3, 2);
    assert_eq!(s.begin_tick(), TickStart::Acquire);
    s.on_acquire(AcquireOutcome::Success { image_index: 0, suboptimal: false });
    s.record_compute();
    s.record_composite();
    s.on_present(PresentOutcome::Suboptimal);
    assert_eq!(s.surface.state, SurfaceState::Invalidated);
}

#[test]
fn device_lost_on_acquire_is_fatal() {
    let mut s = FrameScheduler::new(120, 1280, 720, 3, 2);
    assert_eq!(s.begin_tick(), TickStart::Acquire);
    let d = s.on_acquire(AcquireOutcome::DeviceLost);
    assert_eq!(d, AcquireDecision::Fatal);
    assert!(s.fatal);
}

#[test]
fn device_lost_on_present_is_fatal() {
    let mut s = FrameScheduler::new(120, 1280, 720, 3, 2);
    s.begin_tick();
    s.on_acquire(AcquireOutcome::Success { image_index: 0, suboptimal: false });
    s.record_compute();
    s.record_composite();
    s.on_present(PresentOutcome::DeviceLost);
    assert!(s.fatal);
}

#[test]
fn in_flight_frames_are_capped_and_retired() {
    let mut s = FrameScheduler::new(120, 1280, 720, 3, 2);
    run_clean_tick(&mut s, 0, 0);
    assert_eq!(s.in_flight, 0);

    // keep the future of one frame alive across the next tick
    s.begin_tick();
    s.on_acquire(AcquireOutcome::Success { image_index: 0, suboptimal: false });
    s.record_compute();
    s.record_composite();
    s.on_present(PresentOutcome::Presented);
    assert_eq!(s.in_flight, 1);
    s.end_tick(0);

    s.retire_frames(1);
    assert_eq!(s.in_flight, 0);
}
