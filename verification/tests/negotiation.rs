use vulkano_win::negotiate;
use vulkano_win::required_extensions;
use vulkano_win::ExtensionSet;

fn all_false() -> ExtensionSet {
    ExtensionSet {
        khr_surface: false,
        khr_xlib_surface: false,
        khr_xcb_surface: false,
        khr_wayland_surface: false,
        khr_android_surface: false,
        khr_win32_surface: false,
        mvk_ios_surface: false,
        mvk_macos_surface: false,
    }
}

fn all_true() -> ExtensionSet {
    ExtensionSet {
        khr_surface: true,
        khr_xlib_surface: true,
        khr_xcb_surface: true,
        khr_wayland_surface: true,
        khr_android_surface: true,
        khr_win32_surface: true,
        mvk_ios_surface: true,
        mvk_macos_surface: true,
    }
}

#[test]
fn none_and_ideal_constants() {
    assert_eq!(ExtensionSet::none(), all_false());
    assert_eq!(ExtensionSet::ideal(), all_true());
}

#[test]
fn negotiate_is_fieldwise_and() {
    let supported = ExtensionSet {
        khr_surface: true,
        khr_xlib_surface: true,
        khr_xcb_surface: false,
        khr_wayland_surface: true,
        khr_android_surface: false,
        khr_win32_surface: false,
        mvk_ios_surface: false,
        mvk_macos_surface: true,
    };
    let r = negotiate(Some(supported));
    assert_eq!(r, supported);
}

#[test]
fn negotiate_full_support_yields_full_wishlist() {
    assert_eq!(negotiate(Some(all_true())), all_true());
}

#[test]
fn negotiate_no_support_yields_empty() {
    assert_eq!(negotiate(Some(all_false())), all_false());
}

#[test]
fn negotiate_failed_query_yields_empty() {
    assert_eq!(negotiate(None), all_false());
}

#[test]
fn end_to_end_base_and_win32() {
    let reported = ExtensionSet {
        khr_surface: true,
        khr_win32_surface: true,
        ..all_false()
    };
    let negotiated = negotiate(Some(reported));
    assert!(negotiated.khr_surface);
    assert!(negotiated.khr_win32_surface);
    assert!(!negotiated.khr_xlib_surface);
    assert!(!negotiated.khr_xcb_surface);
    assert!(!negotiated.khr_wayland_surface);
    assert!(!negotiated.khr_android_surface);
    assert!(!negotiated.mvk_ios_surface);
    assert!(!negotiated.mvk_macos_surface);
    assert_eq!(negotiated, reported);
}

#[test]
fn intersection_exact_value() {
    let a = ExtensionSet {
        khr_surface: true,
        khr_xlib_surface: true,
        khr_wayland_surface: true,
        ..all_false()
    };
    let b = ExtensionSet {
        khr_surface: true,
        khr_xcb_surface: true,
        khr_wayland_surface: true,
        ..all_false()
    };
    let expected = ExtensionSet {
        khr_surface: true,
        khr_wayland_surface: true,
        ..all_false()
    };
    assert_eq!(a.intersection(&b), expected);
    assert_eq!(b.intersection(&a), expected);
}

#[test]
fn required_extensions_stays_within_wishlist() {
    // The support query's outcome depends on the machine; whatever it
    // reported, the result must be a subset of the ideal wishlist and the
    // negotiation of the ideal wishlist with itself must keep it.
    let r = required_extensions();
    let again = negotiate(Some(r));
    assert_eq!(again, r);
}
