//! A verified frame-presentation state machine for GPU render loops.
//!
//! An interactive program that presents frames to a window has to keep a
//! presentable surface in step with the window, acquire an image per frame,
//! draw into it, submit the work, and survive the failures presentation is
//! prone to: a surface that is lost or outdated, an acquisition that times
//! out, a window that is minimized to no area at all. This crate holds the
//! decisions of such a loop and none of its input or output. The host owns
//! the window, the graphics backend and the drawing code; it reports what
//! happens as [`presenter::Event`]s and carries out the
//! [`presenter::Action`]s it gets back.
//!
//! ```text
//!   window event / backend outcome            request to the host
//!   ------------------------------            -------------------
//!   Resized, ScaleFactorChanged        ->     Configure(descriptor) | Wait
//!   SurfaceBuilt | SurfaceBuildFailed  ->     Wait | Finish(..)
//!   RedrawRequested { now }            ->     Acquire | Wait
//!   FrameAcquired | AcquireFailed(e)   ->     Draw { frame, elapsed } | Configure(..) | Finish(..)
//!   FrameDrawn | DrawFailed(f)         ->     Submit | Finish(Fatal(..))
//!   CommandsSubmitted | SubmitFailed   ->     Finish(Success(frame)) | Finish(Fatal(..))
//!   CloseRequested                     ->     Exit { code }
//! ```
//!
//! The modules, leaf to root:
//!
//! - [`error`]: the failure taxonomy and the classifier that maps each
//!   failure to retry, reconfigure or fatal.
//! - [`timer`]: the pacing clock.
//! - [`cursor`]: change detection for the pointer shape the drawing code asks
//!   for.
//! - [`surface`]: the surface configuration manager.
//! - [`presenter`]: the loop itself.
//! - [`lemmas`]: what holds of the loop in every state and over every
//!   sequence of events.
//!
//! Every executable function is total: none has a precondition and none
//! panics. Each states exactly what it returns and how it changes its
//! receiver, in terms of the abstract state (`@`) of the type.

pub mod cursor;
pub mod error;
pub mod lemmas;
pub mod presenter;
pub mod surface;
pub mod timer;
