//! The surface configuration manager.
//!
//! The manager owns the descriptor of the presentable surface: its size, its
//! pixel format and its presentation mode. The surface itself is a handle of
//! the graphics backend, bound to the descriptor it was built from; the host
//! rebuilds it from the descriptor this module hands out and reports back how
//! that went. What the manager keeps is that descriptor, replaced as a whole
//! whenever a rebuild completes and never updated in part. Format and
//! presentation mode are fixed for the manager's lifetime; only the size
//! changes.

use vstd::prelude::*;
use crate::error::ConfigurationError;
use crate::error::PresentError;

verus! {

/// Pixel layout of the images the surface presents.
#[derive(Clone, Copy, Debug, PartialEq, Eq, Structural)]
pub enum PixelFormat {
    /// Blue, green, red, alpha; 8 bits each, sRGB encoded.
    Bgra8UnormSrgb,
    /// Blue, green, red, alpha; 8 bits each, linear.
    Bgra8Unorm,
    /// Red, green, blue, alpha; 8 bits each, sRGB encoded.
    Rgba8UnormSrgb,
    /// Red, green, blue, alpha; 8 bits each, linear.
    Rgba8Unorm,
}

/// How finished images reach the screen.
#[derive(Clone, Copy, Debug, PartialEq, Eq, Structural)]
pub enum PresentMode {
    /// Images are shown in submission order, paced by the display.
    Fifo,
    /// The newest image replaces a waiting one.
    Mailbox,
    /// Images are shown at once, possibly tearing.
    Immediate,
}

/// Descriptor the backend builds a presentable surface from.
#[derive(Clone, Copy, Debug, PartialEq, Eq, Structural)]
pub struct SurfaceConfig {
    pub width: u32,
    pub height: u32,
    pub format: PixelFormat,
    pub present_mode: PresentMode,
}

impl SurfaceConfig {
    /// A descriptor is valid when neither dimension is zero and it presents
    /// first-in-first-out.
    pub open spec fn valid(self) -> bool {
        &&& self.width > 0
        &&& self.height > 0
        &&& self.present_mode == PresentMode::Fifo
    }
}

/// One acquired image: what the drawing collaborator renders into.
#[derive(Clone, Copy, Debug, PartialEq, Eq, Structural)]
pub struct FrameHandle {
    pub width: u32,
    pub height: u32,
    pub format: PixelFormat,
}

/// The descriptor for a window of the given client size, or `None` when the
/// window has no area and no surface can be built for it.
pub open spec fn descriptor_for(format: PixelFormat, width: u32, height: u32) -> Option<
    SurfaceConfig,
> {
    if width == 0 || height == 0 {
        None
    } else {
        Some(SurfaceConfig { width, height, format, present_mode: PresentMode::Fifo })
    }
}

/// The image a surface built from `config` hands out.
pub open spec fn frame_of(config: SurfaceConfig) -> FrameHandle {
    FrameHandle { width: config.width, height: config.height, format: config.format }
}

/// Abstract state of a [`SurfaceManager`].
pub ghost struct SurfaceState {
    /// The format every descriptor of this manager carries.
    pub format: PixelFormat,
    /// The descriptor of the live surface, if one has been built.
    pub current: Option<SurfaceConfig>,
}

impl SurfaceState {
    /// The live descriptor, if any, is valid and carries the manager's format.
    pub open spec fn wf(self) -> bool {
        self.current matches Some(config) ==> config.valid() && config.format == self.format
    }

    /// State and result of a configuration request, given what the backend
    /// reported for the rebuild.
    ///
    /// A request with a zero dimension is skipped: nothing changes and nothing
    /// fails, whatever `backend` holds. Otherwise the new descriptor replaces
    /// the old one if the backend rebuilt the surface, and the state is kept
    /// and the backend's error returned if it did not.
    pub open spec fn configure(
        self,
        width: u32,
        height: u32,
        backend: Result<(), ConfigurationError>,
    ) -> (SurfaceState, Result<(), ConfigurationError>) {
        match descriptor_for(self.format, width, height) {
            None => (self, Ok(())),
            Some(config) => match backend {
                Ok(_) => (SurfaceState { current: Some(config), ..self }, Ok(())),
                Err(e) => (self, Err(e)),
            },
        }
    }

    /// Result of a frame acquisition, given what the backend reported.
    ///
    /// With a live surface the backend decides: success yields an image with
    /// the live descriptor's size and format, a failure is passed on
    /// unchanged. Without a live surface there is nothing to acquire from and
    /// the result is `Lost`.
    pub open spec fn acquire_frame(self, backend: Result<(), PresentError>) -> Result<
        FrameHandle,
        PresentError,
    > {
        match self.current {
            None => Err(PresentError::Lost),
            Some(config) => match backend {
                Ok(_) => Ok(frame_of(config)),
                Err(e) => Err(e),
            },
        }
    }
}

/// Owner of the surface descriptor.
pub struct SurfaceManager {
    format: PixelFormat,
    current: Option<SurfaceConfig>,
}

impl View for SurfaceManager {
    type V = SurfaceState;

    closed spec fn view(&self) -> SurfaceState {
        SurfaceState { format: self.format, current: self.current }
    }
}

impl SurfaceManager {
    /// A manager for surfaces of the given format, with no surface built yet.
    pub fn new(format: PixelFormat) -> (manager: Self)
        ensures
            manager@ == (SurfaceState { format, current: None }),
            manager@.wf(),
    {
        SurfaceManager { format, current: None }
    }

    /// The format every descriptor of this manager carries.
    pub fn format(&self) -> (format: PixelFormat)
        ensures
            format == self@.format,
    {
        self.format
    }

    /// The descriptor of the live surface, if one has been built.
    pub fn config(&self) -> (config: Option<SurfaceConfig>)
        ensures
            config == self@.current,
    {
        self.current
    }

    /// The descriptor a surface for a window of the given client size is
    /// built from; `None` exactly when a dimension is zero, in which case no
    /// rebuild may be attempted.
    pub fn descriptor(&self, width: u32, height: u32) -> (config: Option<SurfaceConfig>)
        ensures
            config == descriptor_for(self@.format, width, height),
            config is None <==> (width == 0 || height == 0),
            config matches Some(c) ==> c.valid(),
    {
        if width == 0 || height == 0 {
            None
        } else {
            Some(SurfaceConfig { width, height, format: self.format, present_mode: PresentMode::Fifo })
        }
    }

    /// Records the outcome of rebuilding the surface for the given size.
    ///
    /// `backend` is what the backend reported for the rebuild from
    /// [`SurfaceManager::descriptor`]. See [`SurfaceState::configure`].
    pub fn configure(
        &mut self,
        width: u32,
        height: u32,
        backend: Result<(), ConfigurationError>,
    ) -> (result: Result<(), ConfigurationError>)
        ensures
            (final(self)@, result) == old(self)@.configure(width, height, backend),
            old(self)@.wf() ==> final(self)@.wf(),
    {
        match self.descriptor(width, height) {
            None => Ok(()),
            Some(config) => match backend {
                Ok(_) => {
                    self.current = Some(config);
                    Ok(())
                },
                Err(e) => Err(e),
            },
        }
    }

    /// Resolves a frame acquisition against what the backend reported.
    /// See [`SurfaceState::acquire_frame`].
    pub fn acquire_frame(&self, backend: Result<(), PresentError>) -> (result: Result<
        FrameHandle,
        PresentError,
    >)
        ensures
            result == self@.acquire_frame(backend),
    {
        match self.current {
            None => Err(PresentError::Lost),
            Some(config) => match backend {
                Ok(_) => Ok(
                    FrameHandle { width: config.width, height: config.height, format: config.format },
                ),
                Err(e) => Err(e),
            },
        }
    }
}

/// After a configuration request with non-zero dimensions that the backend
/// completed, an acquisition that the backend completes yields an image of
/// exactly those dimensions, in the manager's format.
pub proof fn lemma_configure_then_acquire(state: SurfaceState, width: u32, height: u32)
    requires
        width > 0,
        height > 0,
    ensures
        state.configure(width, height, Ok(())).1 == Ok::<(), ConfigurationError>(()),
        state.configure(width, height, Ok(())).0.acquire_frame(Ok(())) == Ok::<
            FrameHandle,
            PresentError,
        >(FrameHandle { width, height, format: state.format }),
{
}

/// Configuring twice in a row with the same arguments and the same backend
/// outcome leaves the manager exactly where configuring once leaves it, with
/// the same result; so an acquisition afterwards behaves the same.
pub proof fn lemma_configure_idempotent(
    state: SurfaceState,
    width: u32,
    height: u32,
    backend: Result<(), ConfigurationError>,
    acquired: Result<(), PresentError>,
)
    ensures
        state.configure(width, height, backend).0.configure(width, height, backend)
            == state.configure(width, height, backend),
        state.configure(width, height, backend).0.configure(width, height, backend).0.acquire_frame(
            acquired,
        ) == state.configure(width, height, backend).0.acquire_frame(acquired),
{
}

/// Configuration keeps the manager well formed, never changes its format,
/// and a request with a zero dimension changes nothing at all.
pub proof fn lemma_configure_preserves(
    state: SurfaceState,
    width: u32,
    height: u32,
    backend: Result<(), ConfigurationError>,
)
    ensures
        state.wf() ==> state.configure(width, height, backend).0.wf(),
        state.configure(width, height, backend).0.format == state.format,
        (width == 0 || height == 0) ==> state.configure(width, height, backend) == (
            state,
            Ok::<(), ConfigurationError>(()),
        ),
{
}

/// Every image an acquisition yields has the size and format of the live
/// descriptor, and an acquisition fails exactly when there is no live surface
/// or the backend reported a failure.
pub proof fn lemma_acquired_frame_matches(state: SurfaceState, backend: Result<(), PresentError>)
    ensures
        state.acquire_frame(backend) is Ok <==> (state.current is Some && backend is Ok),
        state.acquire_frame(backend) matches Ok(frame) ==> {
            &&& state.current matches Some(config)
            &&& frame == frame_of(config)
            &&& frame.width == config.width
            &&& frame.height == config.height
            &&& frame.format == config.format
        },
        backend matches Err(e) ==> (state.current is Some ==> state.acquire_frame(backend) == Err::<
            FrameHandle,
            PresentError,
        >(e)),
{
}

} // verus!
