//! The frame presentation loop.
//!
//! The loop is a state machine that never touches the window system or the
//! graphics backend itself. The host feeds it one [`Event`] at a time, a
//! notification from the window or the outcome of the work it was last asked
//! to do, and is told by the returned [`Action`] what to do next. One tick
//! runs `Idle → Acquiring → Drawing → Submitting → Idle`; a failed
//! acquisition branches to a surface rebuild, to a dropped frame or to
//! shutdown, as the classifier in [`crate::error`] decides.
//!
//! The machine is the spec function [`PresenterState::step`]; the executable
//! [`FramePresenter::step`] computes exactly that function on the abstract
//! state of the presenter.

use vstd::prelude::*;
use crate::error::classify;
use crate::error::verdict_of;
use crate::error::ConfigurationError;
use crate::error::DrawFault;
use crate::error::InitFault;
use crate::error::PresentError;
use crate::error::RenderError;
use crate::error::Verdict;
use crate::surface::descriptor_for;
use crate::surface::frame_of;
use crate::surface::FrameHandle;
use crate::surface::PixelFormat;
use crate::surface::SurfaceConfig;
use crate::surface::SurfaceManager;
use crate::surface::SurfaceState;
use crate::timer::elapsed_between;
use crate::timer::later_of;
use crate::timer::FrameTimer;

verus! {

/// Process exit code after a close request.
pub const EXIT_CLEAN: i32 = 0;

/// Process exit code after a fatal failure.
pub const EXIT_FAILURE: i32 = 1;

/// How many frames in a row may be dropped for transient failures.
#[derive(Clone, Copy, Debug, PartialEq, Eq, Structural)]
pub enum DropPolicy {
    /// Any number; dropped frames are not counted.
    Unbounded,
    /// At most this many; the transient failure after that is fatal.
    EscalateAfter(u32),
}

impl DropPolicy {
    /// Whether a further transient failure, after `drops` dropped frames in a
    /// row, is fatal.
    pub open spec fn exhausted(self, drops: u32) -> bool {
        self matches DropPolicy::EscalateAfter(limit) && drops >= limit
    }

    /// The count of dropped frames after one more frame was dropped.
    pub open spec fn after_drop(self, drops: u32) -> u32 {
        match self {
            DropPolicy::Unbounded => drops,
            DropPolicy::EscalateAfter(_) => if drops < u32::MAX {
                (drops + 1) as u32
            } else {
                drops
            },
        }
    }

    /// The counts this policy can reach.
    pub open spec fn admits(self, drops: u32) -> bool {
        match self {
            DropPolicy::Unbounded => drops == 0,
            DropPolicy::EscalateAfter(limit) => drops <= limit,
        }
    }
}

/// Why a surface rebuild is under way.
#[derive(Clone, Copy, Debug, PartialEq, Eq, Structural)]
pub enum RebuildCause {
    /// The window reported its client size.
    HostSize,
    /// An acquisition found the surface lost.
    SurfaceLost,
}

/// Where the loop stands.
#[derive(Clone, Copy, Debug, PartialEq, Eq, Structural)]
pub enum Phase {
    /// Between ticks; host events are accepted.
    Idle,
    /// The host is rebuilding the surface for this client size.
    Reconfiguring { width: u32, height: u32, cause: RebuildCause },
    /// The host is acquiring the image of the tick that started at `started`.
    Acquiring { started: u64 },
    /// The drawing collaborator is rendering into `frame`.
    Drawing { started: u64, frame: FrameHandle },
    /// The host is submitting the commands recorded for `frame`.
    Submitting { started: u64, frame: FrameHandle },
    /// The loop has shut down; the process is to exit with `code`.
    Terminating { code: i32 },
}

/// What the host reports to the loop.
#[derive(Clone, Copy, Debug, PartialEq, Eq, Structural)]
pub enum Event {
    /// The user asked to close the window.
    CloseRequested,
    /// The window's client size changed.
    Resized { width: u32, height: u32 },
    /// The window's scale factor changed; the size is the new client size.
    ScaleFactorChanged { width: u32, height: u32 },
    /// The window wants a frame; `now` is the current clock reading.
    RedrawRequested { now: u64 },
    /// The surface was rebuilt as asked.
    SurfaceBuilt,
    /// The surface could not be rebuilt.
    SurfaceBuildFailed,
    /// The backend handed out the next image.
    FrameAcquired,
    /// The backend could not hand out the next image.
    AcquireFailed(PresentError),
    /// The drawing collaborator recorded its commands.
    FrameDrawn,
    /// The drawing collaborator failed.
    DrawFailed(DrawFault),
    /// The command queue took the frame's commands.
    CommandsSubmitted,
    /// The command queue refused the frame's commands.
    SubmitFailed,
}

/// How a tick ended.
#[derive(Clone, Copy, Debug, PartialEq, Eq, Structural)]
pub enum PresentationOutcome {
    /// The frame was drawn and submitted.
    Success(FrameHandle),
    /// The frame was dropped; the loop carries on.
    Recoverable(RenderError),
    /// The loop has shut down for this reason.
    Fatal(RenderError),
}

/// What the loop asks of the host.
#[derive(Clone, Copy, Debug, PartialEq, Eq, Structural)]
pub enum Action {
    /// Nothing; wait for the next window event.
    Wait,
    /// Rebuild the surface from this descriptor, then report
    /// [`Event::SurfaceBuilt`] or [`Event::SurfaceBuildFailed`].
    Configure(SurfaceConfig),
    /// Acquire the next image, then report [`Event::FrameAcquired`] or
    /// [`Event::AcquireFailed`].
    Acquire,
    /// Run the drawing collaborator on `frame` with `elapsed` ticks as its
    /// pacing input, then report [`Event::FrameDrawn`] or
    /// [`Event::DrawFailed`].
    Draw { frame: FrameHandle, elapsed: u64 },
    /// Submit the recorded commands, then report
    /// [`Event::CommandsSubmitted`] or [`Event::SubmitFailed`].
    Submit,
    /// The tick is over with this outcome; wait for the next window event.
    Finish(PresentationOutcome),
    /// Leave the event loop and exit the process with `code`.
    Exit { code: i32 },
    /// The event does not belong to the current phase and was not applied.
    Rejected,
}

/// Abstract state of a [`FramePresenter`].
pub ghost struct PresenterState {
    /// The surface configuration manager.
    pub surface: SurfaceState,
    /// The clock reading of the last presented frame.
    pub last_frame: u64,
    /// Where the loop stands.
    pub phase: Phase,
    /// The client width the window last reported.
    pub window_width: u32,
    /// The client height the window last reported.
    pub window_height: u32,
    /// The bound on dropped frames.
    pub policy: DropPolicy,
    /// Frames dropped in a row for transient failures, as the policy counts.
    pub drops: u32,
}

impl PresenterState {
    /// The state before the window's client size is known.
    pub open spec fn fresh(format: PixelFormat, policy: DropPolicy, now: u64) -> PresenterState {
        PresenterState {
            surface: SurfaceState { format, current: None },
            last_frame: now,
            phase: Phase::Idle,
            window_width: 0,
            window_height: 0,
            policy,
            drops: 0,
        }
    }

    /// Whether the window is suspended: it last reported a client size
    /// without area, as a minimized window does.
    pub open spec fn suspended(self) -> bool {
        self.window_width == 0 || self.window_height == 0
    }

    /// Whether the live surface was built for the client size the window last
    /// reported.
    pub open spec fn mirrors_window(self) -> bool {
        self.surface.current is Some && self.surface.current == descriptor_for(
            self.surface.format,
            self.window_width,
            self.window_height,
        )
    }

    /// State and first request of a loop that starts at clock reading `now`
    /// on a window of the given client size.
    pub open spec fn initial(
        width: u32,
        height: u32,
        format: PixelFormat,
        policy: DropPolicy,
        now: u64,
    ) -> (PresenterState, Action) {
        Self::fresh(format, policy, now).resize(width, height)
    }

    /// The consistency every reachable state has.
    pub open spec fn wf(self) -> bool {
        &&& self.surface.wf()
        &&& self.policy.admits(self.drops)
        &&& match self.phase {
            Phase::Idle => self.suspended() || self.mirrors_window(),
            Phase::Reconfiguring { width, height, cause } => {
                &&& !self.suspended()
                &&& width == self.window_width
                &&& height == self.window_height
                &&& cause == RebuildCause::SurfaceLost ==> self.mirrors_window()
            },
            Phase::Acquiring { started } => !self.suspended() && self.mirrors_window(),
            Phase::Drawing { started, frame } => {
                &&& !self.suspended()
                &&& self.mirrors_window()
                &&& frame == frame_of(self.surface.current.unwrap())
            },
            Phase::Submitting { started, frame } => {
                &&& !self.suspended()
                &&& self.mirrors_window()
                &&& frame == frame_of(self.surface.current.unwrap())
            },
            Phase::Terminating { code } => code == EXIT_CLEAN || code == EXIT_FAILURE,
        }
    }

    /// Whether a frame is in flight: acquired or being acquired, and not yet
    /// submitted or given up.
    pub open spec fn in_flight(self) -> bool {
        self.phase is Acquiring || self.phase is Drawing || self.phase is Submitting
    }

    /// How many backend outcomes the loop waits for, at most, before it is
    /// between ticks again or has shut down.
    pub open spec fn pending_outcomes(self) -> nat {
        match self.phase {
            Phase::Idle => 0,
            Phase::Terminating { .. } => 0,
            Phase::Reconfiguring { .. } => 1,
            Phase::Submitting { .. } => 1,
            Phase::Drawing { .. } => 2,
            Phase::Acquiring { .. } => 3,
        }
    }

    /// Whether the current phase takes `event`. An event that it does not
    /// take is rejected and changes nothing.
    pub open spec fn expects(self, event: Event) -> bool {
        match self.phase {
            Phase::Terminating { .. } => true,
            Phase::Idle => event is CloseRequested || event is Resized
                || event is ScaleFactorChanged || event is RedrawRequested,
            Phase::Reconfiguring { .. } => event is SurfaceBuilt || event is SurfaceBuildFailed,
            Phase::Acquiring { .. } => event is FrameAcquired || event is AcquireFailed,
            Phase::Drawing { .. } => event is FrameDrawn || event is DrawFailed,
            Phase::Submitting { .. } => event is CommandsSubmitted || event is SubmitFailed,
        }
    }

    /// Shutdown for `error`.
    pub open spec fn fail(self, error: RenderError) -> (PresenterState, Action) {
        (
            PresenterState { phase: Phase::Terminating { code: EXIT_FAILURE }, ..self },
            Action::Finish(PresentationOutcome::Fatal(error)),
        )
    }

    /// The window reported a client size. The size is remembered. Without
    /// area no rebuild is asked for and the surface is left alone; otherwise
    /// the host is asked to rebuild the surface for the new size.
    pub open spec fn resize(self, width: u32, height: u32) -> (PresenterState, Action) {
        let sized = PresenterState { window_width: width, window_height: height, ..self };
        match descriptor_for(self.surface.format, width, height) {
            None => (sized, Action::Wait),
            Some(config) => (
                PresenterState {
                    phase: Phase::Reconfiguring { width, height, cause: RebuildCause::HostSize },
                    ..sized
                },
                Action::Configure(config),
            ),
        }
    }

    /// The window wants a frame. A suspended window, or one without a
    /// surface, gets none and nothing changes; otherwise a tick starts.
    pub open spec fn redraw(self, now: u64) -> (PresenterState, Action) {
        if self.suspended() || self.surface.current is None {
            (self, Action::Wait)
        } else {
            (PresenterState { phase: Phase::Acquiring { started: now }, ..self }, Action::Acquire)
        }
    }

    /// The host finished, or failed, rebuilding the surface.
    pub open spec fn rebuilt(
        self,
        width: u32,
        height: u32,
        cause: RebuildCause,
        backend: Result<(), ConfigurationError>,
    ) -> (PresenterState, Action) {
        let (surface, result) = self.surface.configure(width, height, backend);
        match result {
            Ok(_) => (
                PresenterState { surface, phase: Phase::Idle, ..self },
                match cause {
                    RebuildCause::HostSize => Action::Wait,
                    RebuildCause::SurfaceLost => Action::Finish(
                        PresentationOutcome::Recoverable(
                            RenderError::Presentation(PresentError::Lost),
                        ),
                    ),
                },
            ),
            Err(_) => (PresenterState { surface, ..self }).fail(RenderError::Configuration),
        }
    }

    /// The backend answered the acquisition of the tick that started at
    /// `started`.
    pub open spec fn acquired(self, started: u64, backend: Result<(), PresentError>) -> (
        PresenterState,
        Action,
    ) {
        match self.surface.acquire_frame(backend) {
            Ok(frame) => (
                PresenterState { phase: Phase::Drawing { started, frame }, ..self },
                Action::Draw { frame, elapsed: elapsed_between(self.last_frame, started) },
            ),
            Err(e) => self.acquire_failed(e),
        }
    }

    /// The acquisition failed with `error`; the classifier decides.
    pub open spec fn acquire_failed(self, error: PresentError) -> (PresenterState, Action) {
        let reason = RenderError::Presentation(error);
        match verdict_of(reason) {
            Verdict::Reconfigure => match self.surface.current {
                Some(config) => (
                    PresenterState {
                        phase: Phase::Reconfiguring {
                            width: config.width,
                            height: config.height,
                            cause: RebuildCause::SurfaceLost,
                        },
                        ..self
                    },
                    Action::Configure(config),
                ),
                None => (
                    PresenterState { phase: Phase::Idle, ..self },
                    Action::Finish(PresentationOutcome::Recoverable(reason)),
                ),
            },
            Verdict::Fatal => self.fail(reason),
            Verdict::Retry => if self.policy.exhausted(self.drops) {
                self.fail(reason)
            } else {
                (
                    PresenterState {
                        phase: Phase::Idle,
                        drops: self.policy.after_drop(self.drops),
                        ..self
                    },
                    Action::Finish(PresentationOutcome::Recoverable(reason)),
                )
            },
        }
    }

    /// The commands of `frame` were submitted: the tick that started at
    /// `started` is presented and becomes the pacing reference.
    pub open spec fn presented(self, started: u64, frame: FrameHandle) -> (PresenterState, Action) {
        (
            PresenterState {
                phase: Phase::Idle,
                last_frame: later_of(self.last_frame, started),
                drops: 0,
                ..self
            },
            Action::Finish(PresentationOutcome::Success(frame)),
        )
    }

    /// The transition function: state after `event`, and what the host is
    /// asked to do next.
    pub open spec fn step(self, event: Event) -> (PresenterState, Action) {
        match self.phase {
            Phase::Terminating { code } => (self, Action::Exit { code }),
            Phase::Idle => match event {
                Event::CloseRequested => (
                    PresenterState { phase: Phase::Terminating { code: EXIT_CLEAN }, ..self },
                    Action::Exit { code: EXIT_CLEAN },
                ),
                Event::Resized { width, height } => self.resize(width, height),
                Event::ScaleFactorChanged { width, height } => self.resize(width, height),
                Event::RedrawRequested { now } => self.redraw(now),
                _ => (self, Action::Rejected),
            },
            Phase::Reconfiguring { width, height, cause } => match event {
                Event::SurfaceBuilt => self.rebuilt(width, height, cause, Ok(())),
                Event::SurfaceBuildFailed => self.rebuilt(
                    width,
                    height,
                    cause,
                    Err(ConfigurationError::RebuildFailed),
                ),
                _ => (self, Action::Rejected),
            },
            Phase::Acquiring { started } => match event {
                Event::FrameAcquired => self.acquired(started, Ok(())),
                Event::AcquireFailed(e) => self.acquired(started, Err(e)),
                _ => (self, Action::Rejected),
            },
            Phase::Drawing { started, frame } => match event {
                Event::FrameDrawn => (
                    PresenterState { phase: Phase::Submitting { started, frame }, ..self },
                    Action::Submit,
                ),
                Event::DrawFailed(fault) => self.fail(RenderError::Draw(fault)),
                _ => (self, Action::Rejected),
            },
            Phase::Submitting { started, frame } => match event {
                Event::CommandsSubmitted => self.presented(started, frame),
                Event::SubmitFailed => self.fail(RenderError::Submission),
                _ => (self, Action::Rejected),
            },
        }
    }
}

/// The frame presentation loop.
pub struct FramePresenter {
    manager: SurfaceManager,
    timer: FrameTimer,
    phase: Phase,
    window_width: u32,
    window_height: u32,
    policy: DropPolicy,
    drops: u32,
}

impl View for FramePresenter {
    type V = PresenterState;

    closed spec fn view(&self) -> PresenterState {
        PresenterState {
            surface: self.manager@,
            last_frame: self.timer@,
            phase: self.phase,
            window_width: self.window_width,
            window_height: self.window_height,
            policy: self.policy,
            drops: self.drops,
        }
    }
}

impl FramePresenter {
    /// Starts a loop at clock reading `now` on a window of the given client
    /// size. Returns the presenter and its first request: to build the
    /// surface, or to wait if the window has no area yet.
    pub fn new(width: u32, height: u32, format: PixelFormat, policy: DropPolicy, now: u64) -> (started:
        (Self, Action))
        ensures
            (started.0@, started.1) == PresenterState::initial(width, height, format, policy, now),
            started.0@.wf(),
    {
        let mut presenter = FramePresenter {
            manager: SurfaceManager::new(format),
            timer: FrameTimer::new(now),
            phase: Phase::Idle,
            window_width: 0,
            window_height: 0,
            policy,
            drops: 0,
        };
        assert(presenter@ == PresenterState::fresh(format, policy, now));
        let action = presenter.resize(width, height);
        (presenter, action)
    }

    /// Starts a loop once the host has tried to bring the graphics backend
    /// up. `backend` is how that went: without a device there is no loop, and
    /// the failure is returned as the startup error it is; with one, the loop
    /// starts as [`FramePresenter::new`] starts it.
    pub fn initialize(
        backend: Result<(), InitFault>,
        width: u32,
        height: u32,
        format: PixelFormat,
        policy: DropPolicy,
        now: u64,
    ) -> (started: Result<(Self, Action), RenderError>)
        ensures
            match backend {
                Ok(_) => {
                    &&& started matches Ok(pair)
                    &&& (pair.0@, pair.1) == PresenterState::initial(
                        width,
                        height,
                        format,
                        policy,
                        now,
                    )
                    &&& pair.0@.wf()
                },
                Err(fault) => {
                    &&& started matches Err(error)
                    &&& error == RenderError::Initialization(fault)
                    &&& verdict_of(error) == Verdict::Fatal
                },
            },
    {
        match backend {
            Ok(_) => Ok(FramePresenter::new(width, height, format, policy, now)),
            Err(fault) => Err(RenderError::Initialization(fault)),
        }
    }

    /// Applies one event and returns what the host is to do next.
    ///
    /// The result is [`PresenterState::step`] on the presenter's state, for
    /// every state and every event; a well-formed presenter stays well
    /// formed.
    pub fn step(&mut self, event: Event) -> (action: Action)
        ensures
            (final(self)@, action) == old(self)@.step(event),
            old(self)@.wf() ==> final(self)@.wf(),
    {
        match self.phase {
            Phase::Terminating { code } => Action::Exit { code },
            Phase::Idle => match event {
                Event::CloseRequested => {
                    self.phase = Phase::Terminating { code: EXIT_CLEAN };
                    Action::Exit { code: EXIT_CLEAN }
                },
                Event::Resized { width, height } => self.resize(width, height),
                Event::ScaleFactorChanged { width, height } => self.resize(width, height),
                Event::RedrawRequested { now } => self.redraw(now),
                _ => Action::Rejected,
            },
            Phase::Reconfiguring { width, height, cause } => match event {
                Event::SurfaceBuilt => self.rebuilt(width, height, cause, Ok(())),
                Event::SurfaceBuildFailed => self.rebuilt(
                    width,
                    height,
                    cause,
                    Err(ConfigurationError::RebuildFailed),
                ),
                _ => Action::Rejected,
            },
            Phase::Acquiring { started } => match event {
                Event::FrameAcquired => self.acquired(started, Ok(())),
                Event::AcquireFailed(e) => self.acquired(started, Err(e)),
                _ => Action::Rejected,
            },
            Phase::Drawing { started, frame } => match event {
                Event::FrameDrawn => {
                    self.phase = Phase::Submitting { started, frame };
                    Action::Submit
                },
                Event::DrawFailed(fault) => self.fail(RenderError::Draw(fault)),
                _ => Action::Rejected,
            },
            Phase::Submitting { started, frame } => match event {
                Event::CommandsSubmitted => {
                    self.timer.advance(started);
                    self.drops = 0;
                    self.phase = Phase::Idle;
                    Action::Finish(PresentationOutcome::Success(frame))
                },
                Event::SubmitFailed => self.fail(RenderError::Submission),
                _ => Action::Rejected,
            },
        }
    }

    fn fail(&mut self, error: RenderError) -> (action: Action)
        ensures
            (final(self)@, action) == old(self)@.fail(error),
    {
        self.phase = Phase::Terminating { code: EXIT_FAILURE };
        Action::Finish(PresentationOutcome::Fatal(error))
    }

    fn resize(&mut self, width: u32, height: u32) -> (action: Action)
        ensures
            (final(self)@, action) == old(self)@.resize(width, height),
    {
        self.window_width = width;
        self.window_height = height;
        match self.manager.descriptor(width, height) {
            None => Action::Wait,
            Some(config) => {
                self.phase = Phase::Reconfiguring { width, height, cause: RebuildCause::HostSize };
                Action::Configure(config)
            },
        }
    }

    fn redraw(&mut self, now: u64) -> (action: Action)
        ensures
            (final(self)@, action) == old(self)@.redraw(now),
    {
        if self.window_width == 0 || self.window_height == 0 || self.manager.config().is_none() {
            Action::Wait
        } else {
            self.phase = Phase::Acquiring { started: now };
            Action::Acquire
        }
    }

    fn rebuilt(
        &mut self,
        width: u32,
        height: u32,
        cause: RebuildCause,
        backend: Result<(), ConfigurationError>,
    ) -> (action: Action)
        ensures
            (final(self)@, action) == old(self)@.rebuilt(width, height, cause, backend),
    {
        match self.manager.configure(width, height, backend) {
            Ok(_) => {
                self.phase = Phase::Idle;
                match cause {
                    RebuildCause::HostSize => Action::Wait,
                    RebuildCause::SurfaceLost => Action::Finish(
                        PresentationOutcome::Recoverable(
                            RenderError::Presentation(PresentError::Lost),
                        ),
                    ),
                }
            },
            Err(_) => self.fail(RenderError::Configuration),
        }
    }

    fn acquired(&mut self, started: u64, backend: Result<(), PresentError>) -> (action: Action)
        ensures
            (final(self)@, action) == old(self)@.acquired(started, backend),
    {
        match self.manager.acquire_frame(backend) {
            Ok(frame) => {
                let elapsed = self.timer.elapsed(started);
                self.phase = Phase::Drawing { started, frame };
                Action::Draw { frame, elapsed }
            },
            Err(e) => self.acquire_failed(e),
        }
    }

    fn acquire_failed(&mut self, error: PresentError) -> (action: Action)
        ensures
            (final(self)@, action) == old(self)@.acquire_failed(error),
    {
        let reason = RenderError::Presentation(error);
        match classify(reason) {
            Verdict::Reconfigure => match self.manager.config() {
                Some(config) => {
                    self.phase = Phase::Reconfiguring {
                        width: config.width,
                        height: config.height,
                        cause: RebuildCause::SurfaceLost,
                    };
                    Action::Configure(config)
                },
                None => {
                    self.phase = Phase::Idle;
                    Action::Finish(PresentationOutcome::Recoverable(reason))
                },
            },
            Verdict::Fatal => self.fail(reason),
            Verdict::Retry => {
                let exhausted = match self.policy {
                    DropPolicy::Unbounded => false,
                    DropPolicy::EscalateAfter(limit) => self.drops >= limit,
                };
                if exhausted {
                    self.fail(reason)
                } else {
                    match self.policy {
                        DropPolicy::Unbounded => {},
                        DropPolicy::EscalateAfter(_) => {
                            self.drops = self.drops + 1;
                        },
                    }
                    self.phase = Phase::Idle;
                    Action::Finish(PresentationOutcome::Recoverable(reason))
                }
            },
        }
    }

    /// Where the loop stands.
    pub fn phase(&self) -> (phase: Phase)
        ensures
            phase == self@.phase,
    {
        self.phase
    }

    /// The exit code the process is to end with, once the loop has shut
    /// down: [`EXIT_CLEAN`] after a close request, [`EXIT_FAILURE`] after a
    /// fatal failure.
    pub fn exit_code(&self) -> (code: Option<i32>)
        ensures
            code == match self@.phase {
                Phase::Terminating { code } => Some(code),
                _ => None,
            },
    {
        match self.phase {
            Phase::Terminating { code } => Some(code),
            _ => None,
        }
    }

    /// The descriptor of the live surface, if one has been built.
    pub fn surface_config(&self) -> (config: Option<SurfaceConfig>)
        ensures
            config == self@.surface.current,
    {
        self.manager.config()
    }

    /// The client size the window last reported, as width and height.
    pub fn window_size(&self) -> (size: (u32, u32))
        ensures
            size == (self@.window_width, self@.window_height),
    {
        (self.window_width, self.window_height)
    }

    /// Whether the window is suspended: it last reported a client size
    /// without area.
    pub fn is_suspended(&self) -> (suspended: bool)
        ensures
            suspended == self@.suspended(),
    {
        self.window_width == 0 || self.window_height == 0
    }

    /// The clock reading of the last presented frame, or of the start of the
    /// loop if none was presented yet.
    pub fn last_frame(&self) -> (last: u64)
        ensures
            last == self@.last_frame,
    {
        self.timer.last_timestamp()
    }

    /// The bound on dropped frames the loop was started with.
    pub fn policy(&self) -> (policy: DropPolicy)
        ensures
            policy == self@.policy,
    {
        self.policy
    }

    /// Frames dropped in a row for transient failures, as the policy counts.
    pub fn dropped_in_a_row(&self) -> (drops: u32)
        ensures
            drops == self@.drops,
    {
        self.drops
    }
}

} // verus!
