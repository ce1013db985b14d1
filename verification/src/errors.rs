//! The unified creation error: one tagged union over window-construction
//! and surface-construction failures, with a conversion from each
//! underlying error so either stage's failure can be wrapped without
//! matching at the call site.

use vstd::prelude::*;

verus! {

/// A surface-construction failure, as the graphics runtime reports it:
/// passed through this layer unchanged.
#[derive(Clone, Copy, Debug, PartialEq, Eq, Structural)]
pub enum SurfaceError {
    /// The platform in use has no loaded surface capability.
    UnsupportedPlatform,
    /// The host ran out of memory during the native surface call.
    OutOfHostMemory,
    /// The device ran out of memory during the native surface call.
    OutOfDeviceMemory,
    /// The native window is in an invalid state (for instance, already in
    /// use by another surface).
    NativeWindowInUse,
}

/// A window-construction failure, as the windowing toolkit reports it.
#[derive(Clone, Copy, Debug, PartialEq, Eq, Structural)]
pub enum WindowError {
    /// The underlying platform returned an operating-system error.
    Os,
    /// The requested window configuration is not supported.
    NotSupported,
}

/// Error that can happen when building a window together with its surface:
/// one variant per failing stage, each wrapping the originating error.
#[derive(Clone, Copy, Debug, PartialEq, Eq, Structural)]
pub enum CreationError {
    /// Error when creating the surface.
    SurfaceCreationError(SurfaceError),
    /// Error when creating the window.
    WindowCreationError(WindowError),
}

impl CreationError {
    /// The human-readable description, keyed on the failing stage.
    pub open spec fn description_spec(self) -> Seq<char> {
        match self {
            CreationError::SurfaceCreationError(_) => "error while creating the surface"@,
            CreationError::WindowCreationError(_) => "error while creating the window"@,
        }
    }

    /// A human-readable description of which stage failed.
    pub fn description(&self) -> (r: &'static str)
        ensures
            r@ == self.description_spec(),
    {
        match self {
            CreationError::SurfaceCreationError(_) => "error while creating the surface",
            CreationError::WindowCreationError(_) => "error while creating the window",
        }
    }
}

impl From<SurfaceError> for CreationError {
    /// Wraps a surface-construction failure in its variant, unchanged.
    fn from(err: SurfaceError) -> (r: CreationError)
        ensures
            r == CreationError::SurfaceCreationError(err),
    {
        CreationError::SurfaceCreationError(err)
    }
}

impl vstd::std_specs::convert::FromSpecImpl<SurfaceError> for CreationError {
    open spec fn obeys_from_spec() -> bool {
        true
    }

    open spec fn from_spec(err: SurfaceError) -> CreationError {
        CreationError::SurfaceCreationError(err)
    }
}

impl From<WindowError> for CreationError {
    /// Wraps a window-construction failure in its variant, unchanged.
    fn from(err: WindowError) -> (r: CreationError)
        ensures
            r == CreationError::WindowCreationError(err),
    {
        CreationError::WindowCreationError(err)
    }
}

impl vstd::std_specs::convert::FromSpecImpl<WindowError> for CreationError {
    open spec fn obeys_from_spec() -> bool {
        true
    }

    open spec fn from_spec(err: WindowError) -> CreationError {
        CreationError::WindowCreationError(err)
    }
}

} // verus!
