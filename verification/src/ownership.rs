//! The ownership-safety capability: a wrapper type qualifies only if every
//! query of the underlying window yields the same object, never a
//! temporary or relocated copy. The platform constructors extract native
//! handles from the window, and those handles must stay valid after the
//! accessor returns and after the window is moved into the surface.
//!
//! The capability is granted to direct ownership, plain references, the
//! exclusive-owning box, and both single-threaded and multi-threaded
//! reference-counted sharing, all of which keep the pointee in place under
//! move and clone. It must not be granted to containers that may relocate
//! or copy the underlying object on move.

use std::rc::Rc;
use std::sync::Arc;
use vstd::prelude::*;

verus! {

/// An alternative to a plain borrow with the requirement that all calls to
/// [`SafeBorrow::borrow_window`] return the same object.
pub trait SafeBorrow<T>: Sized {
    /// The one window value this wrapper refers to.
    spec fn borrowed(&self) -> T;

    /// Every call returns a reference to the same underlying window.
    fn borrow_window(&self) -> (r: &T)
        ensures
            *r == self.borrowed(),
    ;
}

impl<T> SafeBorrow<T> for T {
    open spec fn borrowed(&self) -> T {
        *self
    }

    fn borrow_window(&self) -> (r: &T) {
        self
    }
}

impl<'a, T> SafeBorrow<T> for &'a T {
    open spec fn borrowed(&self) -> T {
        **self
    }

    fn borrow_window(&self) -> (r: &T) {
        self
    }
}

impl<'a, T> SafeBorrow<T> for &'a mut T {
    open spec fn borrowed(&self) -> T {
        **self
    }

    fn borrow_window(&self) -> (r: &T) {
        self
    }
}

impl<T> SafeBorrow<T> for Box<T> {
    open spec fn borrowed(&self) -> T {
        **self
    }

    fn borrow_window(&self) -> (r: &T) {
        self
    }
}

impl<T> SafeBorrow<T> for Rc<T> {
    open spec fn borrowed(&self) -> T {
        **self
    }

    fn borrow_window(&self) -> (r: &T) {
        self
    }
}

impl<T> SafeBorrow<T> for Arc<T> {
    open spec fn borrowed(&self) -> T {
        **self
    }

    fn borrow_window(&self) -> (r: &T) {
        self
    }
}

/// Law: a wrapper granted the ownership-safety capability refers to one
/// fixed window. Any two references obtained from the same wrapper, each
/// as [`SafeBorrow::borrow_window`] promises it, refer to equal values.
pub proof fn lemma_safe_borrow_stable<T, W: SafeBorrow<T>>(w: &W, r1: &T, r2: &T)
    requires
        *r1 == w.borrowed(),
        *r2 == w.borrowed(),
    ensures
        *r1 == *r2,
{
}

} // verus!
