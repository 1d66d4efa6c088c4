//! What holds of the presentation loop in every state.
//!
//! The lemmas here are stated over [`PresenterState::step`], the function
//! that [`crate::presenter::FramePresenter::step`] computes, so each of them
//! holds of every presenter and every sequence of events a host can feed it.

use vstd::prelude::*;
use crate::error::verdict_of;
use crate::error::DrawFault;
use crate::error::PresentError;
use crate::error::RenderError;
use crate::error::Verdict;
use crate::presenter::Action;
use crate::presenter::DropPolicy;
use crate::presenter::Event;
use crate::presenter::Phase;
use crate::presenter::PresentationOutcome;
use crate::presenter::PresenterState;
use crate::presenter::RebuildCause;
use crate::presenter::EXIT_CLEAN;
use crate::presenter::EXIT_FAILURE;
use crate::surface::descriptor_for;
use crate::surface::frame_of;
use crate::surface::FrameHandle;
use crate::surface::PixelFormat;
use crate::surface::PresentMode;
use crate::surface::SurfaceConfig;
use crate::timer::elapsed_between;
use crate::timer::later_of;

verus! {

/// The state after feeding `events` in order.
pub open spec fn run(state: PresenterState, events: Seq<Event>) -> PresenterState
    decreases events.len(),
{
    if events.len() == 0 {
        state
    } else {
        run(state, events.drop_last()).step(events.last()).0
    }
}

/// The number of frames presented while feeding `events` in order.
pub open spec fn presented_during(state: PresenterState, events: Seq<Event>) -> nat
    decreases events.len(),
{
    if events.len() == 0 {
        0
    } else {
        let earlier = presented_during(state, events.drop_last());
        let last = run(state, events.drop_last()).step(events.last()).1;
        if last matches Action::Finish(PresentationOutcome::Success(_)) {
            earlier + 1
        } else {
            earlier
        }
    }
}

/// A loop starts well formed. On a window with area its first request is to
/// build the surface for exactly the window's size; on a window without area
/// it starts suspended and asks for nothing.
pub proof fn lemma_initial_state(
    width: u32,
    height: u32,
    format: PixelFormat,
    policy: DropPolicy,
    now: u64,
)
    ensures
        PresenterState::initial(width, height, format, policy, now).0.wf(),
        PresenterState::initial(width, height, format, policy, now).0.last_frame == now,
        PresenterState::initial(width, height, format, policy, now).0.surface.current is None,
        (width > 0 && height > 0) ==> PresenterState::initial(
            width,
            height,
            format,
            policy,
            now,
        ).1 == Action::Configure(
            SurfaceConfig { width, height, format, present_mode: PresentMode::Fifo },
        ),
        (width == 0 || height == 0) ==> {
            &&& PresenterState::initial(width, height, format, policy, now).1 == Action::Wait
            &&& PresenterState::initial(width, height, format, policy, now).0.suspended()
            &&& PresenterState::initial(width, height, format, policy, now).0.phase == Phase::Idle
        },
{
}

/// Every step keeps a well-formed state well formed.
pub proof fn lemma_step_keeps_wf(state: PresenterState, event: Event)
    requires
        state.wf(),
    ensures
        state.step(event).0.wf(),
{
}

/// So does every sequence of steps.
pub proof fn lemma_run_keeps_wf(state: PresenterState, events: Seq<Event>)
    requires
        state.wf(),
    ensures
        run(state, events).wf(),
    decreases events.len(),
{
    if events.len() > 0 {
        lemma_run_keeps_wf(state, events.drop_last());
        lemma_step_keeps_wf(run(state, events.drop_last()), events.last());
    }
}

/// An event is rejected exactly when the current phase does not take it, and
/// a rejected event changes nothing.
pub proof fn lemma_rejected_changes_nothing(state: PresenterState, event: Event)
    ensures
        state.step(event).1 == Action::Rejected <==> !state.expects(event),
        !state.expects(event) ==> state.step(event).0 == state,
{
}

/// Format, presentation mode and drop policy are fixed for the life of the
/// loop: no step changes them.
pub proof fn lemma_step_keeps_policy(state: PresenterState, event: Event)
    ensures
        state.step(event).0.surface.format == state.surface.format,
        state.step(event).0.policy == state.policy,
{
}

/// The surface descriptor changes only when a rebuild completes.
pub proof fn lemma_surface_changes_only_on_rebuild(state: PresenterState, event: Event)
    ensures
        state.step(event).0.surface != state.surface ==> state.phase is Reconfiguring && event
            == Event::SurfaceBuilt,
{
}

/// The pacing reference never moves backwards, and it moves only in the step
/// that completes a successful submission; there it becomes the clock
/// reading at which the presented tick started. A dropped or failed frame
/// leaves it where it was.
pub proof fn lemma_pacing_reference(state: PresenterState, event: Event)
    ensures
        state.step(event).0.last_frame >= state.last_frame,
        state.step(event).0.last_frame != state.last_frame ==> (state.step(event).1 matches Action::Finish(
            PresentationOutcome::Success(_),
        )),
        state.step(event).1 matches Action::Finish(PresentationOutcome::Success(frame)) ==> {
            &&& state.phase matches Phase::Submitting { started, frame: submitted }
            &&& event == Event::CommandsSubmitted
            &&& frame == submitted
            &&& state.step(event).0.last_frame == later_of(state.last_frame, started)
            &&& state.step(event).0.phase == Phase::Idle
        },
{
}

/// The pacing input handed to the drawing collaborator is the time from the
/// pacing reference to the start of the tick, never negative, and the frame
/// handed to it has the size and format of the live surface.
pub proof fn lemma_draw_request(state: PresenterState, event: Event)
    ensures
        state.step(event).1 matches Action::Draw { frame, elapsed } ==> {
            &&& state.phase matches Phase::Acquiring { started }
            &&& event == Event::FrameAcquired
            &&& elapsed == elapsed_between(state.last_frame, started)
            &&& elapsed >= 0
            &&& (started >= state.last_frame ==> state.last_frame + elapsed == started)
            &&& state.surface.current matches Some(config)
            &&& frame == frame_of(config)
            &&& state.step(event).0.phase == Phase::Drawing { started, frame }
            &&& state.step(event).0.last_frame == state.last_frame
        },
{
}

/// The surface mirrors the window: in a well-formed state an acquisition is
/// asked for only while the live surface has the client size the window last
/// reported, every frame handed to the drawing collaborator has exactly that
/// size, and every rebuild asked for is one for that size, which is never
/// without area.
pub proof fn lemma_surface_mirrors_window(state: PresenterState, event: Event)
    requires
        state.wf(),
    ensures
        state.step(event).1 == Action::Acquire ==> state.mirrors_window() && !state.suspended(),
        state.step(event).1 matches Action::Draw { frame, elapsed } ==> frame == (FrameHandle {
            width: state.window_width,
            height: state.window_height,
            format: state.surface.format,
        }),
        state.step(event).1 matches Action::Configure(config) ==> {
            &&& config.valid()
            &&& config == (SurfaceConfig {
                width: state.step(event).0.window_width,
                height: state.step(event).0.window_height,
                format: state.surface.format,
                present_mode: PresentMode::Fifo,
            })
        },
{
}

/// Over any sequence of events the pacing reference never moves backwards.
pub proof fn lemma_reference_never_retreats(state: PresenterState, events: Seq<Event>)
    ensures
        run(state, events).last_frame >= state.last_frame,
    decreases events.len(),
{
    if events.len() > 0 {
        lemma_reference_never_retreats(state, events.drop_last());
        lemma_pacing_reference(run(state, events.drop_last()), events.last());
    }
}

/// Over any sequence of events in which no frame is presented, however many
/// are dropped, rebuilt for or failed, the pacing reference stays exactly
/// where it was.
pub proof fn lemma_reference_waits_for_success(state: PresenterState, events: Seq<Event>)
    requires
        presented_during(state, events) == 0,
    ensures
        run(state, events).last_frame == state.last_frame,
    decreases events.len(),
{
    if events.len() > 0 {
        lemma_reference_waits_for_success(state, events.drop_last());
        lemma_pacing_reference(run(state, events.drop_last()), events.last());
    }
}

/// At most one frame is in flight: an acquisition is asked for only between
/// ticks, drawing only for the frame just acquired, submission only for the
/// frame just drawn, and a tick ends only from within that tick or from the
/// rebuild it led to.
pub proof fn lemma_one_frame_in_flight(state: PresenterState, event: Event)
    ensures
        state.step(event).1 == Action::Acquire ==> state.phase == Phase::Idle && !state.in_flight()
            && state.step(event).0.phase is Acquiring,
        state.step(event).1 is Draw ==> state.phase is Acquiring && state.step(event).0.phase
            is Drawing,
        state.step(event).1 == Action::Submit ==> state.phase is Drawing && state.step(
            event,
        ).0.phase is Submitting,
        state.step(event).1 is Finish ==> (state.in_flight() || state.phase is Reconfiguring)
            && !state.step(event).0.in_flight(),
        state.in_flight() ==> state.step(event).1 != Action::Acquire,
{
}

/// A frame never outlives the surface it was acquired from: while a frame is
/// being drawn or submitted no rebuild is asked for, the surface descriptor
/// does not change, and the frame that goes on to submission is the frame
/// that was drawn.
pub proof fn lemma_no_rebuild_under_a_frame(state: PresenterState, event: Event)
    requires
        state.phase is Drawing || state.phase is Submitting,
    ensures
        !(state.step(event).1 is Configure),
        !(state.step(event).0.phase is Reconfiguring),
        state.step(event).0.surface == state.surface,
        state.step(event).0.phase matches Phase::Submitting { started, frame } ==> {
            ||| state.phase == (Phase::Drawing { started, frame })
            ||| state.phase == (Phase::Submitting { started, frame })
        },
        state.step(event).1 matches Action::Finish(PresentationOutcome::Success(frame))
            ==> state.phase is Submitting && state.phase->Submitting_frame == frame,
{
}

/// Each request names the phase it leaves the loop in: the loop waits for a
/// backend outcome exactly after it asked the host for backend work, and is
/// between ticks or shut down after every other answer to an event it took.
pub proof fn lemma_action_announces_phase(state: PresenterState, event: Event)
    ensures
        state.step(event).1 is Configure <==> state.step(event).0.phase is Reconfiguring
            && state.expects(event),
        state.step(event).1 == Action::Acquire <==> state.step(event).0.phase is Acquiring
            && state.expects(event),
        state.step(event).1 is Draw <==> state.step(event).0.phase is Drawing && state.expects(
            event,
        ),
        state.step(event).1 == Action::Submit <==> state.step(event).0.phase is Submitting
            && state.expects(event),
        state.step(event).1 is Exit <==> state.step(event).0.phase is Terminating
            && !(state.step(event).1 is Finish),
        (state.step(event).1 == Action::Wait || state.step(event).1 is Finish)
            ==> state.step(event).0.phase == Phase::Idle || state.step(event).0.phase
            is Terminating,
{
}

/// A host that does what it is asked is never rejected: after each request
/// for backend work the loop takes both outcomes that work can have, and
/// after every other answer to an event it took, it takes every window event
/// or has shut down.
pub proof fn lemma_protocol_is_closed(state: PresenterState, event: Event)
    requires
        state.expects(event),
    ensures
        state.step(event).1 is Configure ==> state.step(event).0.expects(Event::SurfaceBuilt)
            && state.step(event).0.expects(Event::SurfaceBuildFailed),
        state.step(event).1 == Action::Acquire ==> state.step(event).0.expects(Event::FrameAcquired)
            && forall|error: PresentError| #[trigger]
            state.step(event).0.expects(Event::AcquireFailed(error)),
        state.step(event).1 is Draw ==> state.step(event).0.expects(Event::FrameDrawn)
            && forall|fault: DrawFault| #[trigger]
            state.step(event).0.expects(Event::DrawFailed(fault)),
        state.step(event).1 == Action::Submit ==> state.step(event).0.expects(
            Event::CommandsSubmitted,
        ) && state.step(event).0.expects(Event::SubmitFailed),
        (state.step(event).1 == Action::Wait || state.step(event).1 is Finish || state.step(
            event,
        ).1 is Exit) ==> {
            &&& state.step(event).0.expects(Event::CloseRequested)
            &&& forall|now: u64| #[trigger]
                state.step(event).0.expects(Event::RedrawRequested { now })
            &&& forall|width: u32, height: u32| #[trigger]
                state.step(event).0.expects(Event::Resized { width, height })
            &&& forall|width: u32, height: u32| #[trigger]
                state.step(event).0.expects(Event::ScaleFactorChanged { width, height })
        },
        state.step(event).1 != Action::Rejected,
{
}

/// Every tick is resolved in a bounded number of steps: while the loop waits
/// for a backend outcome, each outcome it takes brings it strictly closer to
/// being between ticks again, and at most three outcomes are ever
/// outstanding. In particular a lost surface is rebuilt once, not again and
/// again.
pub proof fn lemma_tick_resolves(state: PresenterState, event: Event)
    requires
        state.pending_outcomes() > 0,
        state.expects(event),
    ensures
        state.step(event).0.pending_outcomes() < state.pending_outcomes(),
        state.pending_outcomes() <= 3,
{
}

/// Once the loop has shut down it stays shut down: every event is answered
/// with the same exit request and changes nothing.
pub proof fn lemma_shutdown_is_final(state: PresenterState, event: Event)
    requires
        state.phase is Terminating,
    ensures
        state.step(event) == (state, Action::Exit { code: state.phase->code }),
{
}

/// No sequence of events brings a loop that has shut down back to life.
pub proof fn lemma_shutdown_is_final_over_run(state: PresenterState, events: Seq<Event>)
    requires
        state.phase is Terminating,
    ensures
        run(state, events) == state,
        presented_during(state, events) == 0,
    decreases events.len(),
{
    if events.len() > 0 {
        lemma_shutdown_is_final_over_run(state, events.drop_last());
        lemma_shutdown_is_final(state, events.last());
    }
}

/// The loop shuts down in exactly two ways. A close request between ticks
/// ends it with the clean exit code. A failure that is fatal, by the
/// classifier or because the drop policy is exhausted, ends it with the
/// failure exit code, in the step that reports the failure as the tick's
/// outcome.
pub proof fn lemma_shutdown_causes(state: PresenterState, event: Event)
    requires
        !(state.phase is Terminating),
    ensures
        state.step(event).0.phase matches Phase::Terminating { code } ==> {
            ||| code == EXIT_CLEAN && state.phase == Phase::Idle && event == Event::CloseRequested
                && state.step(event).1 == (Action::Exit { code: EXIT_CLEAN })
            ||| code == EXIT_FAILURE && (state.step(event).1 matches Action::Finish(
                PresentationOutcome::Fatal(_),
            ))
        },
        state.step(event).1 matches Action::Finish(PresentationOutcome::Fatal(reason)) ==> {
            &&& state.step(event).0.phase == Phase::Terminating { code: EXIT_FAILURE }
            &&& verdict_of(reason) == Verdict::Fatal || (verdict_of(reason) == Verdict::Retry
                && state.policy.exhausted(state.drops))
        },
        state.step(event).1 matches Action::Finish(PresentationOutcome::Recoverable(reason)) ==> {
            &&& state.step(event).0.phase == Phase::Idle
            &&& verdict_of(reason) != Verdict::Fatal
        },
{
}

/// Failures in drawing, in submission and in rebuilding the surface are
/// fatal, and the host is told which of them it was.
pub proof fn lemma_draw_and_submit_failures_are_fatal(state: PresenterState, event: Event)
    ensures
        (state.phase is Drawing && event matches Event::DrawFailed(fault)) ==> state.step(event).1
            == Action::Finish(PresentationOutcome::Fatal(RenderError::Draw(event->DrawFailed_0))),
        (state.phase is Submitting && event == Event::SubmitFailed) ==> state.step(event).1
            == Action::Finish(PresentationOutcome::Fatal(RenderError::Submission)),
        (state.phase is Reconfiguring && event == Event::SurfaceBuildFailed && state.phase->width > 0
            && state.phase->height > 0) ==> state.step(event).1 == Action::Finish(
            PresentationOutcome::Fatal(RenderError::Configuration),
        ),
{
}

/// Running out of memory on acquisition shuts the loop down with the failure
/// exit code, and no later event starts another tick.
pub proof fn lemma_out_of_memory_is_fatal(state: PresenterState, later: Seq<Event>)
    requires
        state.wf(),
        state.phase is Acquiring,
    ensures
        state.step(Event::AcquireFailed(PresentError::OutOfMemory)) == (
            PresenterState { phase: Phase::Terminating { code: EXIT_FAILURE }, ..state },
            Action::Finish(
                PresentationOutcome::Fatal(RenderError::Presentation(PresentError::OutOfMemory)),
            ),
        ),
        run(state.step(Event::AcquireFailed(PresentError::OutOfMemory)).0, later) == state.step(
            Event::AcquireFailed(PresentError::OutOfMemory),
        ).0,
        presented_during(state.step(Event::AcquireFailed(PresentError::OutOfMemory)).0, later) == 0,
{
    lemma_shutdown_is_final_over_run(
        state.step(Event::AcquireFailed(PresentError::OutOfMemory)).0,
        later,
    );
}

/// A window without area is skipped: between ticks, a size report with a
/// zero dimension asks for no rebuild and leaves the surface alone, and every
/// redraw request after it is a no-op until a size with area arrives.
pub proof fn lemma_zero_size_is_skipped(state: PresenterState, width: u32, height: u32, now: u64)
    requires
        state.phase == Phase::Idle,
        width == 0 || height == 0,
    ensures
        state.step(Event::Resized { width, height }) == (
            PresenterState { window_width: width, window_height: height, ..state },
            Action::Wait,
        ),
        state.step(Event::Resized { width, height }).0.surface == state.surface,
        state.step(Event::Resized { width, height }).0.suspended(),
        state.step(Event::ScaleFactorChanged { width, height }) == state.step(
            Event::Resized { width, height },
        ),
        state.step(Event::Resized { width, height }).0.step(Event::RedrawRequested { now }) == (
            state.step(Event::Resized { width, height }).0,
            Action::Wait,
        ),
{
}

/// A size report with area is applied before the next tick: the host is
/// asked to rebuild the surface for exactly that size, and once it has, the
/// next tick draws into a frame of that size, whatever the size was before.
pub proof fn lemma_resize_precedes_next_frame(
    state: PresenterState,
    width: u32,
    height: u32,
    now: u64,
)
    requires
        state.phase == Phase::Idle,
        width > 0,
        height > 0,
    ensures
        ({
            let config = SurfaceConfig {
                width,
                height,
                format: state.surface.format,
                present_mode: PresentMode::Fifo,
            };
            let frame = FrameHandle { width, height, format: state.surface.format };
            let (resizing, asked) = state.step(Event::Resized { width, height });
            let (resized, settled) = resizing.step(Event::SurfaceBuilt);
            let (acquiring, first) = resized.step(Event::RedrawRequested { now });
            let (drawing, second) = acquiring.step(Event::FrameAcquired);
            &&& asked == Action::Configure(config)
            &&& state.step(Event::ScaleFactorChanged { width, height }) == (resizing, asked)
            &&& settled == Action::Wait
            &&& resized.surface.current == Some(config)
            &&& resized.phase == Phase::Idle
            &&& !resized.suspended()
            &&& resized.mirrors_window()
            &&& first == Action::Acquire
            &&& second == Action::Draw { frame, elapsed: elapsed_between(state.last_frame, now) }
        }),
{
}

/// Asking for the same size twice in a row leaves the loop where asking once
/// leaves it.
pub proof fn lemma_resize_idempotent(state: PresenterState, width: u32, height: u32)
    requires
        state.phase == Phase::Idle,
    ensures
        ({
            let once = state.step(Event::Resized { width, height }).0.step(Event::SurfaceBuilt).0;
            let twice = once.step(Event::Resized { width, height }).0.step(Event::SurfaceBuilt).0;
            (width > 0 && height > 0) ==> twice == once
        }),
        ({
            let once = state.step(Event::Resized { width, height }).0;
            let twice = once.step(Event::Resized { width, height }).0;
            (width == 0 || height == 0) ==> twice == once
        }),
{
}

/// A lost surface is recovered from without the host seeing an error: the
/// host is asked to rebuild the surface with the dimensions it had, the tick
/// ends as a dropped frame, and the next tick draws into a frame of those
/// dimensions.
pub proof fn lemma_lost_surface_recovers(state: PresenterState, now: u64)
    requires
        state.wf(),
        state.phase is Acquiring,
    ensures
        ({
            let config = state.surface.current.unwrap();
            let (rebuilding, asked) = state.step(Event::AcquireFailed(PresentError::Lost));
            let (recovered, outcome) = rebuilding.step(Event::SurfaceBuilt);
            let (acquiring, first) = recovered.step(Event::RedrawRequested { now });
            let (drawing, second) = acquiring.step(Event::FrameAcquired);
            &&& asked == Action::Configure(config)
            &&& outcome == Action::Finish(
                PresentationOutcome::Recoverable(RenderError::Presentation(PresentError::Lost)),
            )
            &&& recovered == (PresenterState { phase: Phase::Idle, ..state })
            &&& first == Action::Acquire
            &&& second == Action::Draw {
                frame: frame_of(config),
                elapsed: elapsed_between(state.last_frame, now),
            }
        }),
{
}

/// If the rebuild after a lost surface fails too, the failure is fatal:
/// there is no second attempt.
pub proof fn lemma_failed_recovery_is_fatal(state: PresenterState)
    requires
        state.wf(),
        state.phase is Acquiring,
    ensures
        ({
            let rebuilding = state.step(Event::AcquireFailed(PresentError::Lost)).0;
            let (ended, outcome) = rebuilding.step(Event::SurfaceBuildFailed);
            &&& outcome == Action::Finish(PresentationOutcome::Fatal(RenderError::Configuration))
            &&& ended.phase == Phase::Terminating { code: EXIT_FAILURE }
        }),
{
}

/// A transient failure drops the frame and nothing else: the loop is back
/// between ticks with its surface and its pacing reference untouched, unless
/// the drop policy is exhausted, in which case the failure is fatal.
pub proof fn lemma_transient_failure_drops_frame(state: PresenterState, error: PresentError)
    requires
        state.phase is Acquiring,
        state.surface.current is Some,
        error is Transient,
    ensures
        !state.policy.exhausted(state.drops) ==> state.step(Event::AcquireFailed(error)) == (
            PresenterState {
                phase: Phase::Idle,
                drops: state.policy.after_drop(state.drops),
                ..state
            },
            Action::Finish(PresentationOutcome::Recoverable(RenderError::Presentation(error))),
        ),
        state.policy.exhausted(state.drops) ==> state.step(Event::AcquireFailed(error)) == (
            PresenterState { phase: Phase::Terminating { code: EXIT_FAILURE }, ..state },
            Action::Finish(PresentationOutcome::Fatal(RenderError::Presentation(error))),
        ),
        state.policy == DropPolicy::Unbounded ==> !state.policy.exhausted(state.drops),
{
}

/// A whole tick on a healthy backend: from between ticks with a live
/// surface, a redraw request leads through acquisition, drawing and
/// submission back to between ticks, presents a frame of the surface's size,
/// and makes the start of the tick the new pacing reference.
pub proof fn lemma_healthy_tick(state: PresenterState, now: u64)
    requires
        state.wf(),
        state.phase == Phase::Idle,
        !state.suspended(),
    ensures
        ({
            let frame = frame_of(state.surface.current.unwrap());
            let (acquiring, first) = state.step(Event::RedrawRequested { now });
            let (drawing, second) = acquiring.step(Event::FrameAcquired);
            let (submitting, third) = drawing.step(Event::FrameDrawn);
            let (done, fourth) = submitting.step(Event::CommandsSubmitted);
            &&& first == Action::Acquire
            &&& second == Action::Draw { frame, elapsed: elapsed_between(state.last_frame, now) }
            &&& third == Action::Submit
            &&& fourth == Action::Finish(PresentationOutcome::Success(frame))
            &&& done == (PresenterState {
                last_frame: later_of(state.last_frame, now),
                drops: 0,
                ..state
            })
        }),
{
}

/// The first tick of a loop, taken at the clock reading the loop started
/// at, reports no elapsed time and draws into a frame of the window's size.
pub proof fn lemma_first_tick(
    width: u32,
    height: u32,
    format: PixelFormat,
    policy: DropPolicy,
    now: u64,
)
    requires
        width > 0,
        height > 0,
    ensures
        ({
            let started = PresenterState::initial(width, height, format, policy, now).0;
            let ready = started.step(Event::SurfaceBuilt).0;
            let acquiring = ready.step(Event::RedrawRequested { now }).0;
            acquiring.step(Event::FrameAcquired).1 == Action::Draw {
                frame: FrameHandle { width, height, format },
                elapsed: 0,
            }
        }),
{
}

} // verus!
