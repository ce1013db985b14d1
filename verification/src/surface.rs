//! The surface-creation facade and the builder composition.
//!
//! Creating a presentation surface has two halves. The verified half
//! selects the platform constructor for the window's reported handles and
//! pins the window to the request, so that the surface that comes back
//! embeds the very window whose native handles were extracted. The native
//! half, the call into the graphics runtime's surface factory, is the
//! caller's: it performs the selected factory call and hands the outcome
//! back to [`SurfaceRequest::complete`], which either embeds the window in
//! the finished surface or passes the runtime's failure through unchanged.

use crate::dispatch::dispatchable;
use crate::dispatch::select_factory;
use crate::dispatch::selected_factory;
use crate::dispatch::SurfaceFactory;
use crate::dispatch::WindowHandles;
use crate::errors::CreationError;
use crate::errors::SurfaceError;
use crate::errors::WindowError;
use crate::extensions::ExtensionSet;
use crate::ownership::SafeBorrow;
use vstd::prelude::*;

verus! {

/// A presentation surface: the native surface handle the graphics runtime
/// returned, paired with the window it was created against. The window is
/// embedded so it cannot be dropped while the surface lives; the surface
/// must not outlive the instance the handle was created from, which this
/// layer documents as the caller's obligation.
pub struct Surface<W> {
    window: W,
    handle: u64,
}

impl<W> Surface<W> {
    /// The embedded window.
    pub closed spec fn spec_window(self) -> W {
        self.window
    }

    /// The native surface handle.
    pub closed spec fn spec_handle(self) -> u64 {
        self.handle
    }

    /// The embedded window, borrowed.
    pub fn window(&self) -> (w: &W)
        ensures
            *w == self.spec_window(),
    {
        &self.window
    }

    /// The native surface handle.
    pub fn handle(&self) -> (h: u64)
        ensures
            h == self.spec_handle(),
    {
        self.handle
    }

    /// Consumes the surface and releases the embedded window.
    pub fn into_window(self) -> (w: W)
        ensures
            w == self.spec_window(),
    {
        self.window
    }
}

/// A pending surface creation: the platform factory the dispatch selected,
/// together with the window to embed. The caller performs the factory call
/// and reports its outcome to [`SurfaceRequest::complete`].
pub struct SurfaceRequest<W> {
    factory: SurfaceFactory,
    window: W,
}

impl<W> SurfaceRequest<W> {
    /// The selected platform factory.
    pub closed spec fn spec_factory(self) -> SurfaceFactory {
        self.factory
    }

    /// The window pinned to this request.
    pub closed spec fn spec_window(self) -> W {
        self.window
    }

    /// The platform factory to invoke, with the handles to pass it.
    pub fn factory(&self) -> (f: SurfaceFactory)
        ensures
            f == self.spec_factory(),
    {
        self.factory
    }

    /// The window pinned to this request, borrowed.
    pub fn window(&self) -> (w: &W)
        ensures
            *w == self.spec_window(),
    {
        &self.window
    }

    /// Finish the creation with the native factory call's outcome: a
    /// surface embedding the pinned window on success, the runtime's
    /// failure unchanged otherwise.
    pub fn complete(self, outcome: Result<u64, SurfaceError>) -> (r: Result<
        Surface<W>,
        SurfaceError,
    >)
        ensures
            outcome matches Ok(handle) ==> r matches Ok(s) && s.spec_window()
                == self.spec_window() && s.spec_handle() == handle,
            outcome matches Err(e) ==> r matches Err(e2) && e2 == e,
    {
        match outcome {
            Ok(handle) => Ok(Surface { window: self.window, handle }),
            Err(e) => Err(e),
        }
    }
}

/// Create a surface-creation request from the window type `W`. The request
/// pins the window, so the surface completed from it embeds that window
/// and the window cannot be dropped before the surface.
///
/// The selected factory is exactly the platform dispatch of the handles
/// the window reports, under the instance's loaded capability set.
pub fn create_vk_surface<W: SafeBorrow<WindowHandles>>(window: W, loaded: &ExtensionSet) -> (r:
    SurfaceRequest<W>)
    requires
        dispatchable(window.borrowed(), loaded.khr_xlib_surface),
    ensures
        r.spec_window() == window,
        r.spec_factory() == selected_factory(window.borrowed(), loaded.khr_xlib_surface),
{
    let factory = select_factory(window.borrow_window(), loaded);
    SurfaceRequest { factory, window }
}

/// The builder composition, verified half: take the outcome of building
/// the window and either pin the new window to a surface-creation request
/// or wrap the builder's failure as the window-creation variant of the
/// unified error.
pub fn build_vk_surface<W: SafeBorrow<WindowHandles>>(
    built: Result<W, WindowError>,
    loaded: &ExtensionSet,
) -> (r: Result<SurfaceRequest<W>, CreationError>)
    requires
        built matches Ok(w) ==> dispatchable(w.borrowed(), loaded.khr_xlib_surface),
    ensures
        built matches Ok(w) ==> r matches Ok(req) && req.spec_window() == w && req.spec_factory()
            == selected_factory(w.borrowed(), loaded.khr_xlib_surface),
        built matches Err(e) ==> r matches Err(c) && c == CreationError::WindowCreationError(e),
{
    match built {
        Ok(window) => Ok(create_vk_surface(window, loaded)),
        Err(e) => Err(CreationError::from(e)),
    }
}

/// The builder composition, completion half: finish a pending request with
/// the native factory call's outcome, wrapping a failure as the
/// surface-creation variant of the unified error.
pub fn complete_build<W>(request: SurfaceRequest<W>, outcome: Result<u64, SurfaceError>) -> (r:
    Result<Surface<W>, CreationError>)
    ensures
        outcome matches Ok(handle) ==> r matches Ok(s) && s.spec_window() == request.spec_window()
            && s.spec_handle() == handle,
        outcome matches Err(e) ==> r matches Err(c) && c == CreationError::SurfaceCreationError(e),
{
    match request.complete(outcome) {
        Ok(surface) => Ok(surface),
        Err(e) => Err(CreationError::from(e)),
    }
}

} // verus!
