//! Surface-creation dispatch layer: bridges a platform-agnostic window
//! handle to a native graphics-API presentation surface.
//!
//! The library negotiates which presentation extensions the graphics
//! instance should request, selects the platform-specific construction path
//! for a window's reported native handles, embeds the window in the
//! resulting surface so that it cannot be dropped first, and unifies
//! window-construction and surface-construction failures into one error
//! type. Window creation, the event loop and the graphics instance itself
//! are external collaborators.
//!
//! Every operation is a direct, synchronous step toward a native
//! windowing or graphics call, and is main-thread-only on platforms with
//! UI-thread affinity. That precondition is documented, not enforced at
//! runtime; callers must uphold it.

mod dispatch;
mod errors;
mod extensions;
mod ownership;
mod surface;

pub use crate::dispatch::can_dispatch;
pub use crate::dispatch::dispatchable;
pub use crate::dispatch::lemma_unix_dispatch_priority;
pub use crate::dispatch::select_factory;
pub use crate::dispatch::selected_factory;
pub use crate::dispatch::SurfaceFactory;
pub use crate::dispatch::WindowHandles;
pub use crate::errors::CreationError;
pub use crate::errors::SurfaceError;
pub use crate::errors::WindowError;
pub use crate::extensions::lemma_negotiate_fieldwise;
pub use crate::extensions::negotiate;
pub use crate::extensions::required_extensions;
pub use crate::extensions::ExtensionSet;
pub use crate::ownership::lemma_safe_borrow_stable;
pub use crate::ownership::SafeBorrow;
pub use crate::surface::build_vk_surface;
pub use crate::surface::complete_build;
pub use crate::surface::create_vk_surface;
pub use crate::surface::Surface;
pub use crate::surface::SurfaceRequest;
