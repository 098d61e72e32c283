//! A guard that pairs a native handle with the function that releases it.
//!
//! The native library hands out handles that must be given back through a
//! matching release function. An [`OnDrop`] keeps the two together from the
//! moment the handle is obtained: the handle can be read and overwritten
//! through the guard, and [`OnDrop::release`] passes the handle it then holds
//! to the release function.
//!
//! The release function is held as a `FnOnce`: calling it uses it up.
//! Releasing consumes the guard, and a guard can be neither copied nor
//! cloned, so the release function of a guard runs once at most.
//!
//! The guard does not release by itself. One that goes out of scope without
//! a call of [`OnDrop::release`] calls nothing, and its handle leaks: to
//! release at the end of a scope, on every path out of it, is for the owner
//! of the guard to arrange.

use std::ops::{Deref, DerefMut};
use vstd::prelude::*;

verus! {

/// A copyable handle together with the function that releases it.
///
/// Dropping the guard does not run the function: only [`OnDrop::release`]
/// does.
#[must_use]
pub struct OnDrop<P: Copy, D: FnOnce(P)> {
    inner: P,
    destroy: D,
}

impl<P: Copy, D: FnOnce(P)> OnDrop<P, D> {
    /// The handle that the guard holds now.
    pub closed spec fn handle(&self) -> P {
        self.inner
    }

    /// The release function that the guard was built with.
    pub closed spec fn destructor(&self) -> D {
        self.destroy
    }

    /// The guard over `handle` that releases through `destructor`.
    pub closed spec fn fresh(handle: P, destructor: D) -> Self {
        OnDrop { inner: handle, destroy: destructor }
    }

    /// This guard after `value` has been written through it.
    pub closed spec fn rewritten(self, value: P) -> Self {
        OnDrop { inner: value, destroy: self.destroy }
    }

    /// Wraps `inner` and records `destroy` as the function that releases it.
    /// Nothing is checked of either: that the two belong together is up to the
    /// caller.
    pub fn new(inner: P, destroy: D) -> (guard: Self)
        ensures
            guard == Self::fresh(inner, destroy),
            guard.handle() == inner,
            guard.destructor() == destroy,
    {
        OnDrop { inner, destroy }
    }

    /// Ends the guard by calling its release function, once, on the handle
    /// that it holds now. The caller shows that the function accepts that
    /// handle. The call uses the function up, and the guard with it.
    pub fn release(self)
        requires
            call_requires(self.destructor(), (self.handle(),)),
        ensures
            call_ensures(self.destructor(), (self.handle(),), ()),
    {
        let destroy = self.destroy;
        destroy(self.inner)
    }

    /// A guard is its handle and its release function, nothing more.
    pub proof fn lemma_guard_is_handle_and_destructor(self, other: Self)
        requires
            self.handle() == other.handle(),
            self.destructor() == other.destructor(),
        ensures
            self == other,
    {
    }

    /// A fresh guard holds the handle and the release function it was built
    /// with. A write through a guard changes the handle to the value written
    /// and keeps the release function, so the value written last is the one
    /// that reads return and that the release function receives.
    pub proof fn lemma_guard_is_transparent(handle: P, destructor: D, first: P, second: P)
        ensures
            Self::fresh(handle, destructor).handle() == handle,
            Self::fresh(handle, destructor).destructor() == destructor,
            Self::fresh(handle, destructor).rewritten(first).handle() == first,
            Self::fresh(handle, destructor).rewritten(first).destructor() == destructor,
            Self::fresh(handle, destructor).rewritten(first).rewritten(second) == Self::fresh(
                second,
                destructor,
            ),
            Self::fresh(handle, destructor).rewritten(handle) == Self::fresh(handle, destructor),
    {
    }
}

impl<P: Copy, D: FnOnce(P)> Deref for OnDrop<P, D> {
    type Target = P;

    /// Reads the handle.
    fn deref(&self) -> (handle: &P)
        ensures
            *handle == self.handle(),
    {
        &self.inner
    }
}

impl<P: Copy, D: FnOnce(P)> DerefMut for OnDrop<P, D> {
    /// Lends the handle for writing. What the borrower leaves there is the
    /// handle from then on; the release function stays.
    fn deref_mut(&mut self) -> (handle: &mut P)
        ensures
            *handle == old(self).handle(),
            *final(self) == old(self).rewritten(*final(handle)),
            final(self).handle() == *final(handle),
            final(self).destructor() == old(self).destructor(),
    {
        &mut self.inner
    }
}

} // verus!
