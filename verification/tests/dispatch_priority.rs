use vulkano_win::select_factory;
use vulkano_win::ExtensionSet;
use vulkano_win::SurfaceFactory;
use vulkano_win::WindowHandles;

fn extensions_with_xlib(xlib: bool) -> ExtensionSet {
    ExtensionSet {
        khr_surface: true,
        khr_xlib_surface: xlib,
        khr_xcb_surface: true,
        khr_wayland_surface: true,
        khr_android_surface: false,
        khr_win32_surface: false,
        mvk_ios_surface: false,
        mvk_macos_surface: false,
    }
}

#[test]
fn wayland_wins_over_x11() {
    // The window reports both a full Wayland pair and full X11 handles:
    // the Wayland factory must be selected, not X11.
    let handles = WindowHandles::Unix {
        wayland_display: Some(0x1000),
        wayland_surface: Some(0x2000),
        xlib_display: Some(0x3000),
        xcb_connection: Some(0x4000),
        window_id: Some(77),
    };
    let f = select_factory(&handles, &extensions_with_xlib(true));
    assert_eq!(
        f,
        SurfaceFactory::Wayland {
            display: 0x1000,
            surface: 0x2000,
        }
    );
}

#[test]
fn incomplete_wayland_pair_falls_back() {
    // A Wayland display alone is not enough; the dispatch falls back to
    // Xlib when that capability is loaded.
    let handles = WindowHandles::Unix {
        wayland_display: Some(0x1000),
        wayland_surface: None,
        xlib_display: Some(0x3000),
        xcb_connection: Some(0x4000),
        window_id: Some(77),
    };
    let f = select_factory(&handles, &extensions_with_xlib(true));
    assert_eq!(
        f,
        SurfaceFactory::Xlib {
            display: 0x3000,
            window: 77,
        }
    );
}

#[test]
fn x11_only_without_xlib_capability_selects_xcb() {
    // Only X11 info, and the instance lacks the Xlib capability: the XCB
    // factory must be selected, with the same window identifier.
    let handles = WindowHandles::Unix {
        wayland_display: None,
        wayland_surface: None,
        xlib_display: Some(0x3000),
        xcb_connection: Some(0x4000),
        window_id: Some(77),
    };
    let f = select_factory(&handles, &extensions_with_xlib(false));
    assert_eq!(
        f,
        SurfaceFactory::Xcb {
            connection: 0x4000,
            window: 77,
        }
    );
}

#[test]
fn win32_passes_null_reserved_slot() {
    let handles = WindowHandles::Win32 { hwnd: 0xABC };
    let f = select_factory(&handles, &extensions_with_xlib(false));
    assert_eq!(
        f,
        SurfaceFactory::Win32 {
            hinstance: 0,
            hwnd: 0xABC,
        }
    );
}

#[test]
fn macos_passes_the_view() {
    let handles = WindowHandles::MacOs {
        ns_window: 0x10,
        ns_view: 0x20,
    };
    let f = select_factory(&handles, &extensions_with_xlib(false));
    assert_eq!(f, SurfaceFactory::MacOs { ns_view: 0x20 });
}

#[test]
fn android_passes_the_native_window() {
    let handles = WindowHandles::Android {
        native_window: 0x30,
    };
    let f = select_factory(&handles, &extensions_with_xlib(false));
    assert_eq!(
        f,
        SurfaceFactory::Android {
            native_window: 0x30,
        }
    );
}
