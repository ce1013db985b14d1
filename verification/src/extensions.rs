//! Negotiation of the presentation-related instance capabilities.
//!
//! The negotiator starts from an ideal wishlist with every known
//! platform-surface capability enabled, asks the graphics runtime which
//! capabilities its core loader supports, and intersects the two field by
//! field. A failing support query downgrades to the empty set, so the
//! negotiation itself never fails.

use vstd::prelude::*;

verus! {

/// The set of presentation-related instance capabilities: one boolean flag
/// per supported platform surface protocol, plus the base surface capability.
/// Field names follow the graphics runtime's own capability-naming scheme.
#[derive(Clone, Copy, Debug, PartialEq, Eq, Structural)]
pub struct ExtensionSet {
    pub khr_surface: bool,
    pub khr_xlib_surface: bool,
    pub khr_xcb_surface: bool,
    pub khr_wayland_surface: bool,
    pub khr_android_surface: bool,
    pub khr_win32_surface: bool,
    pub mvk_ios_surface: bool,
    pub mvk_macos_surface: bool,
}

impl ExtensionSet {
    /// The empty set: no capability is requested.
    pub open spec fn none_spec() -> ExtensionSet {
        ExtensionSet {
            khr_surface: false,
            khr_xlib_surface: false,
            khr_xcb_surface: false,
            khr_wayland_surface: false,
            khr_android_surface: false,
            khr_win32_surface: false,
            mvk_ios_surface: false,
            mvk_macos_surface: false,
        }
    }

    /// The ideal wishlist: every surface-related capability is enabled.
    pub open spec fn ideal_spec() -> ExtensionSet {
        ExtensionSet {
            khr_surface: true,
            khr_xlib_surface: true,
            khr_xcb_surface: true,
            khr_wayland_surface: true,
            khr_android_surface: true,
            khr_win32_surface: true,
            mvk_ios_surface: true,
            mvk_macos_surface: true,
        }
    }

    /// Field-wise AND of two capability sets.
    pub open spec fn intersect_spec(self, other: ExtensionSet) -> ExtensionSet {
        ExtensionSet {
            khr_surface: self.khr_surface && other.khr_surface,
            khr_xlib_surface: self.khr_xlib_surface && other.khr_xlib_surface,
            khr_xcb_surface: self.khr_xcb_surface && other.khr_xcb_surface,
            khr_wayland_surface: self.khr_wayland_surface && other.khr_wayland_surface,
            khr_android_surface: self.khr_android_surface && other.khr_android_surface,
            khr_win32_surface: self.khr_win32_surface && other.khr_win32_surface,
            mvk_ios_surface: self.mvk_ios_surface && other.mvk_ios_surface,
            mvk_macos_surface: self.mvk_macos_surface && other.mvk_macos_surface,
        }
    }

    pub fn none() -> (r: ExtensionSet)
        ensures
            r == ExtensionSet::none_spec(),
    {
        ExtensionSet {
            khr_surface: false,
            khr_xlib_surface: false,
            khr_xcb_surface: false,
            khr_wayland_surface: false,
            khr_android_surface: false,
            khr_win32_surface: false,
            mvk_ios_surface: false,
            mvk_macos_surface: false,
        }
    }

    pub fn ideal() -> (r: ExtensionSet)
        ensures
            r == ExtensionSet::ideal_spec(),
    {
        ExtensionSet {
            khr_surface: true,
            khr_xlib_surface: true,
            khr_xcb_surface: true,
            khr_wayland_surface: true,
            khr_android_surface: true,
            khr_win32_surface: true,
            mvk_ios_surface: true,
            mvk_macos_surface: true,
        }
    }

    /// Field-wise AND: a capability is kept exactly when both sets have it.
    pub fn intersection(&self, other: &ExtensionSet) -> (r: ExtensionSet)
        ensures
            r == self.intersect_spec(*other),
    {
        ExtensionSet {
            khr_surface: self.khr_surface && other.khr_surface,
            khr_xlib_surface: self.khr_xlib_surface && other.khr_xlib_surface,
            khr_xcb_surface: self.khr_xcb_surface && other.khr_xcb_surface,
            khr_wayland_surface: self.khr_wayland_surface && other.khr_wayland_surface,
            khr_android_surface: self.khr_android_surface && other.khr_android_surface,
            khr_win32_surface: self.khr_win32_surface && other.khr_win32_surface,
            mvk_ios_surface: self.mvk_ios_surface && other.mvk_ios_surface,
            mvk_macos_surface: self.mvk_macos_surface && other.mvk_macos_surface,
        }
    }
}

/// Negotiate the capability set to request from the graphics instance,
/// given the outcome of the runtime's support query: the field-wise AND of
/// the ideal wishlist with the supported set, or the empty set when the
/// query failed. Negotiation never fails.
pub fn negotiate(supported: Option<ExtensionSet>) -> (r: ExtensionSet)
    ensures
        supported matches Some(s) ==> r == ExtensionSet::ideal_spec().intersect_spec(s),
        supported is None ==> r == ExtensionSet::none_spec(),
{
    match supported {
        Some(s) => ExtensionSet::ideal().intersection(&s),
        None => ExtensionSet::none(),
    }
}

/// Law: negotiation is a pure field-wise AND. Each capability of
/// `negotiate(Some(s))` is enabled exactly when both the ideal wishlist and
/// the reported support enable it, and a failed support query yields the
/// all-false set.
pub proof fn lemma_negotiate_fieldwise(supported: Option<ExtensionSet>, r: ExtensionSet)
    requires
        supported matches Some(s) ==> r == ExtensionSet::ideal_spec().intersect_spec(s),
        supported is None ==> r == ExtensionSet::none_spec(),
    ensures
        supported matches Some(s) ==> {
            &&& r.khr_surface == (ExtensionSet::ideal_spec().khr_surface && s.khr_surface)
            &&& r.khr_xlib_surface == (ExtensionSet::ideal_spec().khr_xlib_surface
                && s.khr_xlib_surface)
            &&& r.khr_xcb_surface == (ExtensionSet::ideal_spec().khr_xcb_surface
                && s.khr_xcb_surface)
            &&& r.khr_wayland_surface == (ExtensionSet::ideal_spec().khr_wayland_surface
                && s.khr_wayland_surface)
            &&& r.khr_android_surface == (ExtensionSet::ideal_spec().khr_android_surface
                && s.khr_android_surface)
            &&& r.khr_win32_surface == (ExtensionSet::ideal_spec().khr_win32_surface
                && s.khr_win32_surface)
            &&& r.mvk_ios_surface == (ExtensionSet::ideal_spec().mvk_ios_surface
                && s.mvk_ios_surface)
            &&& r.mvk_macos_surface == (ExtensionSet::ideal_spec().mvk_macos_surface
                && s.mvk_macos_surface)
        },
        supported is None ==> r == ExtensionSet::none_spec(),
{
}

/// Relies on `vulkano::VulkanLibrary::new` and
/// `VulkanLibrary::supported_extensions`: loads the system's graphics
/// library and reports the instance extensions its core loader supports.
/// The outcome depends on the machine, so nothing is promised of it.
#[verifier::external_body]
fn query_supported_extensions() -> Option<ExtensionSet> {
    match vulkano::VulkanLibrary::new() {
        Ok(library) => {
            let s = library.supported_extensions();
            Some(ExtensionSet {
                khr_surface: s.khr_surface, khr_xlib_surface: s.khr_xlib_surface,
                khr_xcb_surface: s.khr_xcb_surface, khr_wayland_surface: s.khr_wayland_surface,
                khr_android_surface: s.khr_android_surface, khr_win32_surface: s.khr_win32_surface,
                mvk_ios_surface: s.mvk_ios_surface, mvk_macos_surface: s.mvk_macos_surface,
            })
        },
        Err(_) => None,
    }
}

/// The capability set the graphics instance should request: the negotiation
/// of whatever support the runtime reported against the ideal wishlist (see
/// [`negotiate`]). Infallible: a failed support query yields the empty set.
pub fn required_extensions() -> ExtensionSet {
    negotiate(query_supported_extensions())
}

} // verus!
