//! Platform dispatch: translating the native handles a window reports into
//! the one native surface factory to invoke.
//!
//! One construction path exists per platform backend. The generic Unix
//! path detects the protocol at runtime with a three-way priority,
//! Wayland over Xlib over XCB: Wayland is chosen when the window reports
//! both a Wayland display and a Wayland surface; otherwise Xlib when the
//! instance was loaded with the Xlib capability; otherwise XCB, with the
//! same window identifier reinterpreted as an XCB handle.

use crate::extensions::ExtensionSet;
use vstd::prelude::*;

verus! {

/// The native handles a window reports through its platform accessors,
/// as plain values: raw pointers as machine-word addresses, window
/// identifiers as their integer form. Exactly one variant applies to a
/// window, fixed by the platform it was created on.
#[derive(Clone, Copy, Debug, PartialEq, Eq, Structural)]
pub enum WindowHandles {
    /// A Win32 window: its window handle.
    Win32 { hwnd: usize },
    /// A macOS window: its native window pointer and native view pointer.
    MacOs { ns_window: usize, ns_view: usize },
    /// An Android window: its native-window pointer.
    Android { native_window: usize },
    /// A window on the generic Unix path: whichever of the Wayland and X11
    /// accessors reported a handle. `window_id` serves both the Xlib and
    /// the XCB path.
    Unix {
        wayland_display: Option<usize>,
        wayland_surface: Option<usize>,
        xlib_display: Option<usize>,
        xcb_connection: Option<usize>,
        window_id: Option<u64>,
    },
}

/// The native surface factory to invoke, with the plain-value handles to
/// pass it. Mirrors the graphics runtime's platform-specific surface
/// constructors one for one.
#[derive(Clone, Copy, Debug, PartialEq, Eq, Structural)]
pub enum SurfaceFactory {
    /// The HWND-based factory. `hinstance` is a reserved legacy ABI slot,
    /// passed as a null-equivalent until it is wired to the real value.
    Win32 { hinstance: usize, hwnd: usize },
    /// The macOS factory, taking the window's native view pointer. The
    /// caller must attach a metal-compatible presentation layer to that
    /// view before invoking it.
    MacOs { ns_view: usize },
    /// The native-window-based Android factory.
    Android { native_window: usize },
    /// The Wayland factory, taking display and surface.
    Wayland { display: usize, surface: usize },
    /// The Xlib factory, taking display and window identifier.
    Xlib { display: usize, window: u64 },
    /// The XCB factory, taking connection and window identifier.
    Xcb { connection: usize, window: u64 },
}

/// Whether the reported handles suffice for the construction path the
/// dispatch would take. On the Unix path the fallback chain needs the
/// handles of whichever protocol it lands on; the other platforms always
/// carry their handle.
pub open spec fn dispatchable(h: WindowHandles, xlib_loaded: bool) -> bool {
    match h {
        WindowHandles::Win32 { .. } => true,
        WindowHandles::MacOs { .. } => true,
        WindowHandles::Android { .. } => true,
        WindowHandles::Unix {
            wayland_display,
            wayland_surface,
            xlib_display,
            xcb_connection,
            window_id,
        } => {
            if wayland_display is Some && wayland_surface is Some {
                true
            } else if xlib_loaded {
                xlib_display is Some && window_id is Some
            } else {
                xcb_connection is Some && window_id is Some
            }
        },
    }
}

/// The factory the dispatch selects for a window's handles, given whether
/// the instance was loaded with the Xlib capability. On the Unix path this
/// is the Wayland > Xlib > XCB priority.
pub open spec fn selected_factory(h: WindowHandles, xlib_loaded: bool) -> SurfaceFactory
    recommends
        dispatchable(h, xlib_loaded),
{
    match h {
        WindowHandles::Win32 { hwnd } => SurfaceFactory::Win32 { hinstance: 0, hwnd },
        WindowHandles::MacOs { ns_window: _, ns_view } => SurfaceFactory::MacOs { ns_view },
        WindowHandles::Android { native_window } => SurfaceFactory::Android { native_window },
        WindowHandles::Unix {
            wayland_display,
            wayland_surface,
            xlib_display,
            xcb_connection,
            window_id,
        } => {
            if wayland_display is Some && wayland_surface is Some {
                SurfaceFactory::Wayland {
                    display: wayland_display->Some_0,
                    surface: wayland_surface->Some_0,
                }
            } else if xlib_loaded {
                SurfaceFactory::Xlib { display: xlib_display->Some_0, window: window_id->Some_0 }
            } else {
                SurfaceFactory::Xcb {
                    connection: xcb_connection->Some_0,
                    window: window_id->Some_0,
                }
            }
        },
    }
}

/// Whether the reported handles suffice for the construction path the
/// dispatch would take: the runtime test of [`dispatchable`], for callers
/// that cannot know it ahead of the call.
pub fn can_dispatch(handles: &WindowHandles, loaded: &ExtensionSet) -> (b: bool)
    ensures
        b == dispatchable(*handles, loaded.khr_xlib_surface),
{
    match handles {
        WindowHandles::Win32 { .. } => true,
        WindowHandles::MacOs { .. } => true,
        WindowHandles::Android { .. } => true,
        WindowHandles::Unix {
            wayland_display,
            wayland_surface,
            xlib_display,
            xcb_connection,
            window_id,
        } => {
            if wayland_display.is_some() && wayland_surface.is_some() {
                true
            } else if loaded.khr_xlib_surface {
                xlib_display.is_some() && window_id.is_some()
            } else {
                xcb_connection.is_some() && window_id.is_some()
            }
        },
    }
}

/// Select the platform constructor for a window's reported handles.
///
/// Exactly the compiled-in behaviour of each platform backend: Win32 with
/// the reserved slot null, macOS with the native view, Android with the
/// native window, and on the generic Unix path the Wayland > Xlib > XCB
/// priority keyed on the reported handles and the loaded Xlib capability.
pub fn select_factory(handles: &WindowHandles, loaded: &ExtensionSet) -> (f: SurfaceFactory)
    requires
        dispatchable(*handles, loaded.khr_xlib_surface),
    ensures
        f == selected_factory(*handles, loaded.khr_xlib_surface),
{
    match handles {
        WindowHandles::Win32 { hwnd } => SurfaceFactory::Win32 { hinstance: 0, hwnd: *hwnd },
        WindowHandles::MacOs { ns_window: _, ns_view } => SurfaceFactory::MacOs {
            ns_view: *ns_view,
        },
        WindowHandles::Android { native_window } => SurfaceFactory::Android {
            native_window: *native_window,
        },
        WindowHandles::Unix {
            wayland_display,
            wayland_surface,
            xlib_display,
            xcb_connection,
            window_id,
        } => {
            match (wayland_display, wayland_surface) {
                (Some(display), Some(surface)) => SurfaceFactory::Wayland {
                    display: *display,
                    surface: *surface,
                },
                _ => {
                    // No Wayland display found: fall back to Xlib if the
                    // instance can use it, else to XCB.
                    if loaded.khr_xlib_surface {
                        SurfaceFactory::Xlib {
                            display: (*xlib_display).unwrap(),
                            window: (*window_id).unwrap(),
                        }
                    } else {
                        SurfaceFactory::Xcb {
                            connection: (*xcb_connection).unwrap(),
                            window: (*window_id).unwrap(),
                        }
                    }
                },
            }
        },
    }
}

/// Law: the Unix dispatch priority. A window reporting both Wayland
/// handles is sent to the Wayland factory whatever its X11 handles say,
/// and a window without the Wayland pair is sent to the XCB factory
/// exactly when the instance lacks the Xlib capability.
pub proof fn lemma_unix_dispatch_priority(
    wayland_display: Option<usize>,
    wayland_surface: Option<usize>,
    xlib_display: Option<usize>,
    xcb_connection: Option<usize>,
    window_id: Option<u64>,
    xlib_loaded: bool,
)
    ensures
        wayland_display is Some && wayland_surface is Some ==> selected_factory(
            WindowHandles::Unix {
                wayland_display,
                wayland_surface,
                xlib_display,
                xcb_connection,
                window_id,
            },
            xlib_loaded,
        ) is Wayland,
        !(wayland_display is Some && wayland_surface is Some) ==> selected_factory(
            WindowHandles::Unix {
                wayland_display,
                wayland_surface,
                xlib_display,
                xcb_connection,
                window_id,
            },
            xlib_loaded,
        ) is Xlib == xlib_loaded,
        !(wayland_display is Some && wayland_surface is Some) ==> selected_factory(
            WindowHandles::Unix {
                wayland_display,
                wayland_surface,
                xlib_display,
                xcb_connection,
                window_id,
            },
            xlib_loaded,
        ) is Xcb == !xlib_loaded,
{
}

} // verus!
