//! Failure taxonomy of the presentation loop and the policy that classifies it.
//!
//! Every failure the loop can meet is one value of [`RenderError`]. The
//! classifier [`classify`] maps each of them to exactly one [`Verdict`]; the
//! mapping is the spec function [`verdict_of`], so callers can reason about the
//! policy without running it.

use vstd::prelude::*;

verus! {

/// A presentation failure that costs one frame and is expected to clear by
/// itself on a later tick.
#[derive(Clone, Copy, Debug, PartialEq, Eq, Structural)]
pub enum SoftFault {
    /// The surface no longer matches the window; the next frame may still work.
    Outdated,
    /// No image became available in time.
    Timeout,
}

/// Why the backend could not hand out the next presentable image.
#[derive(Clone, Copy, Debug, PartialEq, Eq, Structural)]
pub enum PresentError {
    /// The surface has become invalid and must be rebuilt.
    Lost,
    /// The backend cannot allocate presentation resources.
    OutOfMemory,
    /// Any other, frame-drop tolerable condition.
    Transient(SoftFault),
}

/// Why the graphics backend could not be brought up.
#[derive(Clone, Copy, Debug, PartialEq, Eq, Structural)]
pub enum InitFault {
    /// No device satisfies the surface's compatibility requirement.
    NoCompatibleDevice,
    /// A compatible device exists but refused the connection.
    DeviceUnavailable,
}

/// Which part of the drawing collaborator failed.
#[derive(Clone, Copy, Debug, PartialEq, Eq, Structural)]
pub enum DrawFault {
    /// The compositor could not prepare its frame.
    FramePreparation,
    /// The compositor could not record its draw commands.
    Rendering,
}

/// The backend could not rebuild the presentable surface.
#[derive(Clone, Copy, Debug, PartialEq, Eq, Structural)]
pub enum ConfigurationError {
    /// The rebuild was attempted and did not complete.
    RebuildFailed,
}

/// Every failure the presentation loop can meet.
#[derive(Clone, Copy, Debug, PartialEq, Eq, Structural)]
pub enum RenderError {
    /// Startup failed before a device existed.
    Initialization(InitFault),
    /// Rebuilding the presentable surface failed.
    Configuration,
    /// Acquiring the next image failed.
    Presentation(PresentError),
    /// The command queue refused the frame's commands.
    Submission,
    /// The drawing collaborator failed.
    Draw(DrawFault),
}

/// What the loop does about a failure.
#[derive(Clone, Copy, Debug, PartialEq, Eq, Structural)]
pub enum Verdict {
    /// Drop this frame and carry on with the next tick.
    Retry,
    /// Rebuild the presentable surface with the last known dimensions.
    Reconfigure,
    /// Shut the loop down.
    Fatal,
}

/// The classification policy: a lost surface is rebuilt, a transient
/// presentation failure drops the frame, and everything else is fatal.
pub open spec fn verdict_of(error: RenderError) -> Verdict {
    match error {
        RenderError::Presentation(PresentError::Lost) => Verdict::Reconfigure,
        RenderError::Presentation(PresentError::Transient(_)) => Verdict::Retry,
        _ => Verdict::Fatal,
    }
}

/// Classifies a failure.
pub fn classify(error: RenderError) -> (verdict: Verdict)
    ensures
        verdict == verdict_of(error),
        verdict == Verdict::Reconfigure <==> error == RenderError::Presentation(PresentError::Lost),
        verdict == Verdict::Retry <==> (error matches RenderError::Presentation(e) && e is Transient),
{
    match error {
        RenderError::Presentation(PresentError::Lost) => Verdict::Reconfigure,
        RenderError::Presentation(PresentError::Transient(_)) => Verdict::Retry,
        RenderError::Presentation(PresentError::OutOfMemory) => Verdict::Fatal,
        RenderError::Initialization(_) => Verdict::Fatal,
        RenderError::Configuration => Verdict::Fatal,
        RenderError::Submission => Verdict::Fatal,
        RenderError::Draw(_) => Verdict::Fatal,
    }
}

/// The classifier is total and its three verdicts exclude each other: every
/// failure is rebuilt exactly when it is a lost surface, dropped exactly when
/// it is a transient presentation failure, and fatal exactly when it is
/// neither.
pub proof fn lemma_classification_total(error: RenderError)
    ensures
        verdict_of(error) == Verdict::Retry || verdict_of(error) == Verdict::Reconfigure
            || verdict_of(error) == Verdict::Fatal,
        verdict_of(error) == Verdict::Reconfigure <==> error == RenderError::Presentation(
            PresentError::Lost,
        ),
        verdict_of(error) == Verdict::Retry <==> (error matches RenderError::Presentation(e)
            && e is Transient),
        verdict_of(error) == Verdict::Fatal <==> !(error matches RenderError::Presentation(e) && (e
            is Lost || e is Transient)),
{
}

/// Only presentation failures are ever recovered from: startup,
/// configuration, drawing and submission failures are always fatal.
pub proof fn lemma_only_presentation_recovers(error: RenderError)
    requires
        !(error is Presentation),
    ensures
        verdict_of(error) == Verdict::Fatal,
{
}

} // verus!
