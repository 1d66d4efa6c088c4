use frame_presenter::error::{DrawFault, InitFault, PresentError, RenderError, SoftFault};
use frame_presenter::presenter::{
    Action, DropPolicy, Event, FramePresenter, Phase, PresentationOutcome, RebuildCause,
    EXIT_CLEAN, EXIT_FAILURE,
};
use frame_presenter::surface::{FrameHandle, PixelFormat, PresentMode, SurfaceConfig};

const FORMAT: PixelFormat = PixelFormat::Bgra8UnormSrgb;

fn descriptor(width: u32, height: u32) -> SurfaceConfig {
    SurfaceConfig { width, height, format: FORMAT, present_mode: PresentMode::Fifo }
}

fn frame(width: u32, height: u32) -> FrameHandle {
    FrameHandle { width, height, format: FORMAT }
}

/// A presenter between ticks with a live surface of the given size.
fn running(width: u32, height: u32, policy: DropPolicy, now: u64) -> FramePresenter {
    let (mut presenter, first) = FramePresenter::new(width, height, FORMAT, policy, now);
    assert_eq!(first, Action::Configure(descriptor(width, height)));
    assert_eq!(presenter.step(Event::SurfaceBuilt), Action::Wait);
    assert_eq!(presenter.phase(), Phase::Idle);
    presenter
}

/// Runs one tick on a healthy backend and returns the pacing input it drew with.
fn present_one(presenter: &mut FramePresenter, now: u64) -> u64 {
    assert_eq!(presenter.step(Event::RedrawRequested { now }), Action::Acquire);
    let elapsed = match presenter.step(Event::FrameAcquired) {
        Action::Draw { elapsed, .. } => elapsed,
        other => panic!("expected a draw request, got {:?}", other),
    };
    assert_eq!(presenter.step(Event::FrameDrawn), Action::Submit);
    assert!(matches!(
        presenter.step(Event::CommandsSubmitted),
        Action::Finish(PresentationOutcome::Success(_))
    ));
    elapsed
}

/// Runs one tick whose acquisition fails with `error`.
fn fail_acquisition(presenter: &mut FramePresenter, now: u64, error: PresentError) -> Action {
    assert_eq!(presenter.step(Event::RedrawRequested { now }), Action::Acquire);
    presenter.step(Event::AcquireFailed(error))
}

#[test]
fn first_tick_presents_a_frame_of_the_window_size() {
    let (mut presenter, first) =
        FramePresenter::new(800, 600, FORMAT, DropPolicy::Unbounded, 1_000);
    assert_eq!(first, Action::Configure(descriptor(800, 600)));
    assert_eq!(
        presenter.phase(),
        Phase::Reconfiguring { width: 800, height: 600, cause: RebuildCause::HostSize }
    );
    assert_eq!(presenter.surface_config(), None);

    assert_eq!(presenter.step(Event::SurfaceBuilt), Action::Wait);
    assert_eq!(presenter.surface_config(), Some(descriptor(800, 600)));

    assert_eq!(presenter.step(Event::RedrawRequested { now: 1_000 }), Action::Acquire);
    assert_eq!(presenter.phase(), Phase::Acquiring { started: 1_000 });
    assert_eq!(
        presenter.step(Event::FrameAcquired),
        Action::Draw { frame: frame(800, 600), elapsed: 0 }
    );
    assert_eq!(presenter.phase(), Phase::Drawing { started: 1_000, frame: frame(800, 600) });
    assert_eq!(presenter.step(Event::FrameDrawn), Action::Submit);
    assert_eq!(presenter.phase(), Phase::Submitting { started: 1_000, frame: frame(800, 600) });
    assert_eq!(
        presenter.step(Event::CommandsSubmitted),
        Action::Finish(PresentationOutcome::Success(frame(800, 600)))
    );
    assert_eq!(presenter.phase(), Phase::Idle);
    assert_eq!(presenter.exit_code(), None);
    assert_eq!(presenter.last_frame(), 1_000);
}

#[test]
fn elapsed_time_is_measured_between_presented_frames() {
    let mut presenter = running(800, 600, DropPolicy::Unbounded, 100);
    assert_eq!(present_one(&mut presenter, 116), 16);
    assert_eq!(presenter.last_frame(), 116);
    assert_eq!(present_one(&mut presenter, 150), 34);
    assert_eq!(presenter.last_frame(), 150);
    assert_eq!(present_one(&mut presenter, 150), 0);
    assert_eq!(presenter.last_frame(), 150);
}

#[test]
fn resize_applies_before_the_next_frame() {
    let mut presenter = running(800, 600, DropPolicy::Unbounded, 0);
    present_one(&mut presenter, 16);

    assert_eq!(
        presenter.step(Event::Resized { width: 1024, height: 768 }),
        Action::Configure(descriptor(1024, 768))
    );
    assert_eq!(
        presenter.phase(),
        Phase::Reconfiguring { width: 1024, height: 768, cause: RebuildCause::HostSize }
    );
    assert_eq!(presenter.step(Event::SurfaceBuilt), Action::Wait);
    assert_eq!(presenter.surface_config(), Some(descriptor(1024, 768)));
    assert_eq!(presenter.window_size(), (1024, 768));
    assert!(!presenter.is_suspended());

    assert_eq!(presenter.step(Event::RedrawRequested { now: 32 }), Action::Acquire);
    assert_eq!(
        presenter.step(Event::FrameAcquired),
        Action::Draw { frame: frame(1024, 768), elapsed: 16 }
    );
    assert_eq!(presenter.step(Event::FrameDrawn), Action::Submit);
    assert_eq!(
        presenter.step(Event::CommandsSubmitted),
        Action::Finish(PresentationOutcome::Success(frame(1024, 768)))
    );
    assert_eq!(presenter.exit_code(), None);
}

#[test]
fn scale_factor_change_is_handled_like_a_resize() {
    let mut presenter = running(800, 600, DropPolicy::Unbounded, 0);
    assert_eq!(
        presenter.step(Event::ScaleFactorChanged { width: 1600, height: 1200 }),
        Action::Configure(descriptor(1600, 1200))
    );
    assert_eq!(presenter.step(Event::SurfaceBuilt), Action::Wait);
    assert_eq!(presenter.step(Event::RedrawRequested { now: 5 }), Action::Acquire);
    assert_eq!(
        presenter.step(Event::FrameAcquired),
        Action::Draw { frame: frame(1600, 1200), elapsed: 5 }
    );

    let mut minimized = running(800, 600, DropPolicy::Unbounded, 0);
    assert_eq!(minimized.step(Event::ScaleFactorChanged { width: 0, height: 0 }), Action::Wait);
    assert!(minimized.is_suspended());
}

#[test]
fn resizing_twice_to_the_same_size_changes_nothing_more() {
    let mut presenter = running(800, 600, DropPolicy::Unbounded, 0);
    for _ in 0..2 {
        assert_eq!(
            presenter.step(Event::Resized { width: 1024, height: 768 }),
            Action::Configure(descriptor(1024, 768))
        );
        assert_eq!(presenter.step(Event::SurfaceBuilt), Action::Wait);
        assert_eq!(presenter.surface_config(), Some(descriptor(1024, 768)));
        assert_eq!(presenter.phase(), Phase::Idle);
    }
    assert_eq!(presenter.step(Event::RedrawRequested { now: 7 }), Action::Acquire);
    assert_eq!(
        presenter.step(Event::FrameAcquired),
        Action::Draw { frame: frame(1024, 768), elapsed: 7 }
    );
}

#[test]
fn lost_surface_is_rebuilt_and_the_next_tick_succeeds() {
    let mut presenter = running(800, 600, DropPolicy::Unbounded, 0);
    present_one(&mut presenter, 10);

    assert_eq!(
        fail_acquisition(&mut presenter, 20, PresentError::Lost),
        Action::Configure(descriptor(800, 600))
    );
    assert_eq!(
        presenter.phase(),
        Phase::Reconfiguring { width: 800, height: 600, cause: RebuildCause::SurfaceLost }
    );
    assert_eq!(
        presenter.step(Event::SurfaceBuilt),
        Action::Finish(PresentationOutcome::Recoverable(RenderError::Presentation(
            PresentError::Lost
        )))
    );
    assert_eq!(presenter.phase(), Phase::Idle);
    assert_eq!(presenter.exit_code(), None);
    assert_eq!(presenter.surface_config(), Some(descriptor(800, 600)));
    assert_eq!(presenter.last_frame(), 10);

    assert_eq!(presenter.step(Event::RedrawRequested { now: 30 }), Action::Acquire);
    assert_eq!(
        presenter.step(Event::FrameAcquired),
        Action::Draw { frame: frame(800, 600), elapsed: 20 }
    );
    assert_eq!(presenter.step(Event::FrameDrawn), Action::Submit);
    assert_eq!(
        presenter.step(Event::CommandsSubmitted),
        Action::Finish(PresentationOutcome::Success(frame(800, 600)))
    );
    assert_eq!(presenter.exit_code(), None);
}

#[test]
fn lost_surface_is_rebuilt_with_the_last_configured_size() {
    let mut presenter = running(800, 600, DropPolicy::Unbounded, 0);
    assert_eq!(
        presenter.step(Event::Resized { width: 1280, height: 720 }),
        Action::Configure(descriptor(1280, 720))
    );
    assert_eq!(presenter.step(Event::SurfaceBuilt), Action::Wait);
    assert_eq!(
        fail_acquisition(&mut presenter, 5, PresentError::Lost),
        Action::Configure(descriptor(1280, 720))
    );
}

#[test]
fn failed_rebuild_after_a_lost_surface_is_fatal() {
    let mut presenter = running(800, 600, DropPolicy::Unbounded, 0);
    assert_eq!(
        fail_acquisition(&mut presenter, 20, PresentError::Lost),
        Action::Configure(descriptor(800, 600))
    );
    assert_eq!(
        presenter.step(Event::SurfaceBuildFailed),
        Action::Finish(PresentationOutcome::Fatal(RenderError::Configuration))
    );
    assert_eq!(presenter.exit_code(), Some(EXIT_FAILURE));
}

#[test]
fn failed_rebuild_after_a_resize_is_fatal() {
    let mut presenter = running(800, 600, DropPolicy::Unbounded, 0);
    assert_eq!(
        presenter.step(Event::Resized { width: 1024, height: 768 }),
        Action::Configure(descriptor(1024, 768))
    );
    assert_eq!(
        presenter.step(Event::SurfaceBuildFailed),
        Action::Finish(PresentationOutcome::Fatal(RenderError::Configuration))
    );
    assert_eq!(presenter.phase(), Phase::Terminating { code: EXIT_FAILURE });
    assert_eq!(presenter.surface_config(), Some(descriptor(800, 600)));
}

#[test]
fn out_of_memory_terminates_with_a_failure_code() {
    let mut presenter = running(800, 600, DropPolicy::Unbounded, 0);
    assert_eq!(
        fail_acquisition(&mut presenter, 20, PresentError::OutOfMemory),
        Action::Finish(PresentationOutcome::Fatal(RenderError::Presentation(
            PresentError::OutOfMemory
        )))
    );
    assert_eq!(presenter.phase(), Phase::Terminating { code: EXIT_FAILURE });
    assert_eq!(presenter.exit_code(), Some(1));
    assert_ne!(EXIT_FAILURE, 0);

    let later = [
        Event::RedrawRequested { now: 30 },
        Event::FrameAcquired,
        Event::FrameDrawn,
        Event::CommandsSubmitted,
        Event::Resized { width: 1024, height: 768 },
        Event::SurfaceBuilt,
        Event::CloseRequested,
        Event::RedrawRequested { now: 40 },
    ];
    for event in later {
        assert_eq!(presenter.step(event), Action::Exit { code: EXIT_FAILURE });
        assert_eq!(presenter.phase(), Phase::Terminating { code: EXIT_FAILURE });
    }
    assert_eq!(presenter.last_frame(), 0);
    assert_eq!(presenter.surface_config(), Some(descriptor(800, 600)));
}

#[test]
fn zero_sized_window_is_skipped() {
    for (width, height) in [(0, 600), (800, 0), (0, 0)] {
        let mut presenter = running(800, 600, DropPolicy::Unbounded, 0);
        present_one(&mut presenter, 10);

        assert_eq!(presenter.step(Event::Resized { width, height }), Action::Wait);
        assert!(presenter.is_suspended());
        assert_eq!(presenter.window_size(), (width, height));
        assert_eq!(presenter.phase(), Phase::Idle);
        assert_eq!(presenter.surface_config(), Some(descriptor(800, 600)));

        assert_eq!(presenter.step(Event::RedrawRequested { now: 20 }), Action::Wait);
        assert_eq!(presenter.step(Event::RedrawRequested { now: 30 }), Action::Wait);
        assert_eq!(presenter.phase(), Phase::Idle);
        assert_eq!(presenter.exit_code(), None);
        assert_eq!(presenter.last_frame(), 10);
    }
}

#[test]
fn restored_window_resumes_presenting() {
    let mut presenter = running(800, 600, DropPolicy::Unbounded, 0);
    present_one(&mut presenter, 10);
    assert_eq!(presenter.step(Event::Resized { width: 0, height: 0 }), Action::Wait);
    assert_eq!(presenter.step(Event::RedrawRequested { now: 20 }), Action::Wait);

    assert_eq!(
        presenter.step(Event::Resized { width: 640, height: 480 }),
        Action::Configure(descriptor(640, 480))
    );
    assert!(!presenter.is_suspended());
    assert_eq!(presenter.step(Event::SurfaceBuilt), Action::Wait);
    assert_eq!(presenter.step(Event::RedrawRequested { now: 50 }), Action::Acquire);
    assert_eq!(
        presenter.step(Event::FrameAcquired),
        Action::Draw { frame: frame(640, 480), elapsed: 40 }
    );
}

#[test]
fn window_created_without_area_starts_suspended() {
    let (mut presenter, first) = FramePresenter::new(0, 0, FORMAT, DropPolicy::Unbounded, 0);
    assert_eq!(first, Action::Wait);
    assert!(presenter.is_suspended());
    assert_eq!(presenter.phase(), Phase::Idle);
    assert_eq!(presenter.surface_config(), None);
    assert_eq!(presenter.step(Event::RedrawRequested { now: 5 }), Action::Wait);

    assert_eq!(
        presenter.step(Event::Resized { width: 800, height: 600 }),
        Action::Configure(descriptor(800, 600))
    );
    assert_eq!(presenter.step(Event::SurfaceBuilt), Action::Wait);
    assert_eq!(present_one(&mut presenter, 9), 9);
}

#[test]
fn transient_failures_drop_the_frame_and_keep_the_reference() {
    let mut presenter = running(800, 600, DropPolicy::Unbounded, 0);
    present_one(&mut presenter, 100);

    for (now, fault) in [(110, SoftFault::Outdated), (120, SoftFault::Timeout), (130, SoftFault::Outdated)] {
        assert_eq!(
            fail_acquisition(&mut presenter, now, PresentError::Transient(fault)),
            Action::Finish(PresentationOutcome::Recoverable(RenderError::Presentation(
                PresentError::Transient(fault)
            )))
        );
        assert_eq!(presenter.phase(), Phase::Idle);
        assert_eq!(presenter.exit_code(), None);
        assert_eq!(presenter.last_frame(), 100);
        assert_eq!(presenter.dropped_in_a_row(), 0);
    }
    assert_eq!(present_one(&mut presenter, 140), 40);
    assert_eq!(presenter.last_frame(), 140);
}

#[test]
fn unbounded_policy_never_escalates() {
    let mut presenter = running(800, 600, DropPolicy::Unbounded, 0);
    for tick in 0..1_000u64 {
        assert_eq!(
            fail_acquisition(&mut presenter, tick, PresentError::Transient(SoftFault::Timeout)),
            Action::Finish(PresentationOutcome::Recoverable(RenderError::Presentation(
                PresentError::Transient(SoftFault::Timeout)
            )))
        );
    }
    assert_eq!(presenter.exit_code(), None);
    assert_eq!(presenter.dropped_in_a_row(), 0);
    assert_eq!(presenter.policy(), DropPolicy::Unbounded);
}

#[test]
fn lost_surface_does_not_count_as_a_dropped_frame() {
    let mut presenter = running(800, 600, DropPolicy::EscalateAfter(1), 0);
    let timeout = PresentError::Transient(SoftFault::Timeout);
    fail_acquisition(&mut presenter, 1, timeout);
    assert_eq!(presenter.dropped_in_a_row(), 1);

    assert_eq!(
        fail_acquisition(&mut presenter, 2, PresentError::Lost),
        Action::Configure(descriptor(800, 600))
    );
    assert_eq!(
        presenter.step(Event::SurfaceBuilt),
        Action::Finish(PresentationOutcome::Recoverable(RenderError::Presentation(
            PresentError::Lost
        )))
    );
    assert_eq!(presenter.dropped_in_a_row(), 1);
    assert_eq!(presenter.exit_code(), None);
}

#[test]
fn bounded_policy_escalates_after_the_limit() {
    let mut presenter = running(800, 600, DropPolicy::EscalateAfter(2), 0);
    let timeout = PresentError::Transient(SoftFault::Timeout);
    let dropped = Action::Finish(PresentationOutcome::Recoverable(RenderError::Presentation(timeout)));

    assert_eq!(presenter.policy(), DropPolicy::EscalateAfter(2));
    assert_eq!(fail_acquisition(&mut presenter, 1, timeout), dropped);
    assert_eq!(presenter.dropped_in_a_row(), 1);
    assert_eq!(fail_acquisition(&mut presenter, 2, timeout), dropped);
    assert_eq!(presenter.dropped_in_a_row(), 2);
    assert_eq!(
        fail_acquisition(&mut presenter, 3, timeout),
        Action::Finish(PresentationOutcome::Fatal(RenderError::Presentation(timeout)))
    );
    assert_eq!(presenter.exit_code(), Some(EXIT_FAILURE));
}

#[test]
fn presented_frame_resets_the_drop_count() {
    let mut presenter = running(800, 600, DropPolicy::EscalateAfter(2), 0);
    let outdated = PresentError::Transient(SoftFault::Outdated);
    let dropped = Action::Finish(PresentationOutcome::Recoverable(RenderError::Presentation(outdated)));

    for round in 0..5u64 {
        assert_eq!(fail_acquisition(&mut presenter, round * 10 + 1, outdated), dropped);
        assert_eq!(fail_acquisition(&mut presenter, round * 10 + 2, outdated), dropped);
        assert_eq!(presenter.dropped_in_a_row(), 2);
        present_one(&mut presenter, round * 10 + 3);
        assert_eq!(presenter.dropped_in_a_row(), 0);
    }
    assert_eq!(presenter.exit_code(), None);
}

#[test]
fn zero_tolerance_policy_makes_the_first_drop_fatal() {
    let mut presenter = running(800, 600, DropPolicy::EscalateAfter(0), 0);
    let timeout = PresentError::Transient(SoftFault::Timeout);
    assert_eq!(
        fail_acquisition(&mut presenter, 1, timeout),
        Action::Finish(PresentationOutcome::Fatal(RenderError::Presentation(timeout)))
    );
    assert_eq!(presenter.exit_code(), Some(EXIT_FAILURE));
}

#[test]
fn largest_limit_counts_without_overflow() {
    let mut presenter = running(800, 600, DropPolicy::EscalateAfter(u32::MAX), 0);
    let timeout = PresentError::Transient(SoftFault::Timeout);
    for expected in 1..=3u32 {
        fail_acquisition(&mut presenter, 1, timeout);
        assert_eq!(presenter.dropped_in_a_row(), expected);
    }
    assert_eq!(presenter.exit_code(), None);
}

#[test]
fn draw_failure_is_fatal_and_reported_unchanged() {
    for fault in [DrawFault::FramePreparation, DrawFault::Rendering] {
        let mut presenter = running(800, 600, DropPolicy::Unbounded, 0);
        assert_eq!(presenter.step(Event::RedrawRequested { now: 10 }), Action::Acquire);
        assert!(matches!(presenter.step(Event::FrameAcquired), Action::Draw { .. }));
        assert_eq!(
            presenter.step(Event::DrawFailed(fault)),
            Action::Finish(PresentationOutcome::Fatal(RenderError::Draw(fault)))
        );
        assert_eq!(presenter.exit_code(), Some(EXIT_FAILURE));
        assert_eq!(presenter.last_frame(), 0);
    }
}

#[test]
fn submission_failure_is_fatal_and_keeps_the_reference() {
    let mut presenter = running(800, 600, DropPolicy::Unbounded, 0);
    present_one(&mut presenter, 10);
    assert_eq!(presenter.step(Event::RedrawRequested { now: 20 }), Action::Acquire);
    assert!(matches!(presenter.step(Event::FrameAcquired), Action::Draw { .. }));
    assert_eq!(presenter.step(Event::FrameDrawn), Action::Submit);
    assert_eq!(
        presenter.step(Event::SubmitFailed),
        Action::Finish(PresentationOutcome::Fatal(RenderError::Submission))
    );
    assert_eq!(presenter.exit_code(), Some(EXIT_FAILURE));
    assert_eq!(presenter.last_frame(), 10);
}

#[test]
fn close_request_exits_cleanly() {
    let mut presenter = running(800, 600, DropPolicy::Unbounded, 0);
    present_one(&mut presenter, 10);
    assert_eq!(presenter.step(Event::CloseRequested), Action::Exit { code: EXIT_CLEAN });
    assert_eq!(presenter.exit_code(), Some(0));
    assert_eq!(presenter.step(Event::RedrawRequested { now: 20 }), Action::Exit { code: 0 });
    assert_eq!(presenter.step(Event::CloseRequested), Action::Exit { code: 0 });
}

#[test]
fn events_out_of_turn_are_rejected_and_change_nothing() {
    let mut presenter = running(800, 600, DropPolicy::Unbounded, 0);
    for event in [
        Event::SurfaceBuilt,
        Event::SurfaceBuildFailed,
        Event::FrameAcquired,
        Event::AcquireFailed(PresentError::OutOfMemory),
        Event::FrameDrawn,
        Event::DrawFailed(DrawFault::Rendering),
        Event::CommandsSubmitted,
        Event::SubmitFailed,
    ] {
        assert_eq!(presenter.step(event), Action::Rejected);
        assert_eq!(presenter.phase(), Phase::Idle);
        assert_eq!(presenter.exit_code(), None);
    }

    assert_eq!(presenter.step(Event::RedrawRequested { now: 10 }), Action::Acquire);
    for event in [
        Event::CloseRequested,
        Event::Resized { width: 1, height: 1 },
        Event::ScaleFactorChanged { width: 1, height: 1 },
        Event::RedrawRequested { now: 11 },
        Event::SurfaceBuilt,
        Event::FrameDrawn,
        Event::CommandsSubmitted,
        Event::SubmitFailed,
    ] {
        assert_eq!(presenter.step(event), Action::Rejected);
        assert_eq!(presenter.phase(), Phase::Acquiring { started: 10 });
    }

    assert!(matches!(presenter.step(Event::FrameAcquired), Action::Draw { .. }));
    for event in [Event::FrameAcquired, Event::CommandsSubmitted, Event::CloseRequested] {
        assert_eq!(presenter.step(event), Action::Rejected);
    }
    assert_eq!(presenter.step(Event::FrameDrawn), Action::Submit);
    for event in [Event::FrameDrawn, Event::FrameAcquired, Event::RedrawRequested { now: 12 }] {
        assert_eq!(presenter.step(event), Action::Rejected);
    }
    assert_eq!(
        presenter.step(Event::CommandsSubmitted),
        Action::Finish(PresentationOutcome::Success(frame(800, 600)))
    );
    assert_eq!(presenter.surface_config(), Some(descriptor(800, 600)));
    assert_eq!(presenter.last_frame(), 10);
}

#[test]
fn no_second_frame_is_acquired_while_one_is_in_flight() {
    let mut presenter = running(800, 600, DropPolicy::Unbounded, 0);
    assert_eq!(presenter.step(Event::RedrawRequested { now: 1 }), Action::Acquire);
    assert_eq!(presenter.step(Event::RedrawRequested { now: 2 }), Action::Rejected);
    assert!(matches!(presenter.step(Event::FrameAcquired), Action::Draw { .. }));
    assert_eq!(presenter.step(Event::RedrawRequested { now: 3 }), Action::Rejected);
    assert_eq!(presenter.step(Event::FrameDrawn), Action::Submit);
    assert_eq!(presenter.step(Event::RedrawRequested { now: 4 }), Action::Rejected);
    assert!(matches!(presenter.step(Event::CommandsSubmitted), Action::Finish(_)));
    assert_eq!(presenter.step(Event::RedrawRequested { now: 5 }), Action::Acquire);
}

#[test]
fn clock_that_went_backwards_reports_no_elapsed_time() {
    let mut presenter = running(800, 600, DropPolicy::Unbounded, 1_000);
    assert_eq!(present_one(&mut presenter, 400), 0);
    assert_eq!(presenter.last_frame(), 1_000);
    assert_eq!(present_one(&mut presenter, 1_250), 250);
    assert_eq!(presenter.last_frame(), 1_250);
}

#[test]
fn initialize_starts_the_loop_when_the_backend_is_up() {
    let started =
        FramePresenter::initialize(Ok(()), 800, 600, FORMAT, DropPolicy::Unbounded, 42);
    let (mut presenter, first) = match started {
        Ok(pair) => pair,
        Err(error) => panic!("startup failed: {:?}", error),
    };
    assert_eq!(first, Action::Configure(descriptor(800, 600)));
    assert_eq!(presenter.last_frame(), 42);
    assert_eq!(presenter.step(Event::SurfaceBuilt), Action::Wait);
    assert_eq!(present_one(&mut presenter, 42), 0);
}

#[test]
fn initialize_reports_a_missing_device() {
    for fault in [InitFault::NoCompatibleDevice, InitFault::DeviceUnavailable] {
        let started =
            FramePresenter::initialize(Err(fault), 800, 600, FORMAT, DropPolicy::Unbounded, 0);
        match started {
            Ok(_) => panic!("a loop started without a device"),
            Err(error) => assert_eq!(error, RenderError::Initialization(fault)),
        }
    }
}

#[test]
fn format_is_kept_across_rebuilds() {
    let (mut presenter, first) =
        FramePresenter::new(320, 200, PixelFormat::Rgba8Unorm, DropPolicy::Unbounded, 0);
    assert_eq!(
        first,
        Action::Configure(SurfaceConfig {
            width: 320,
            height: 200,
            format: PixelFormat::Rgba8Unorm,
            present_mode: PresentMode::Fifo,
        })
    );
    assert_eq!(presenter.step(Event::SurfaceBuilt), Action::Wait);
    assert_eq!(
        presenter.step(Event::Resized { width: 640, height: 400 }),
        Action::Configure(SurfaceConfig {
            width: 640,
            height: 400,
            format: PixelFormat::Rgba8Unorm,
            present_mode: PresentMode::Fifo,
        })
    );
}
