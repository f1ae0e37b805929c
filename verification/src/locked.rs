//! Spin-protected resource wrapper. The kernel has a single logical thread
//! that hardware may interrupt, so a handler that busy-waits on a lock held by
//! the code it interrupted can never make progress. Acquiring therefore
//! *requires* the lock to be free: every verified caller is forced to show it
//! never contends with itself, which is exactly the discipline the spin lock
//! demands.

use vstd::prelude::*;

verus! {

/// Exclusive access to a hardware-backed value. Acquiring moves the value out
/// to the caller; releasing moves it back. While the value is out, the
/// resource is held and no other acquisition can be verified.
pub struct Locked<T> {
    value: Option<T>,
}

impl<T> Locked<T> {
    /// Whether the resource is currently held (its value is checked out).
    pub closed spec fn is_held(self) -> bool {
        self.value is None
    }

    /// The guarded value; meaningful only while the resource is free.
    pub closed spec fn inner(self) -> T
        recommends
            !self.is_held(),
    {
        self.value->Some_0
    }

    pub fn new(value: T) -> (l: Locked<T>)
        ensures
            !l.is_held(),
            l.inner() == value,
    {
        Locked { value: Some(value) }
    }

    /// Take exclusive access. A caller that cannot show the lock free would
    /// spin forever, so freeness is a precondition rather than a wait.
    pub fn acquire(&mut self) -> (t: T)
        requires
            !old(self).is_held(),
        ensures
            final(self).is_held(),
            t == old(self).inner(),
    {
        self.value.take().unwrap()
    }

    /// Give the value back, releasing the lock.
    pub fn release(&mut self, t: T)
        requires
            old(self).is_held(),
        ensures
            !final(self).is_held(),
            final(self).inner() == t,
    {
        self.value = Some(t);
    }
}

} // verus!
