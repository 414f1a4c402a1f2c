//! A minimal, non-recursive spin lock.
//!
//! The kernel is single-core with no scheduler, so the lock's job is to keep
//! nested call paths from interleaving access to shared hardware state (the
//! text console). The lock owns its value outright: acquiring moves the value
//! into a guard, releasing moves it back, so at most one guard for a lock can
//! be alive at any time and every access goes through a guard.

use vstd::pervasive::unreached;
use vstd::prelude::*;

verus! {

/// Exclusive handle to the value protected by a [`SpinLock`]; obtained from
/// `lock` or `try_lock` and given back through `unlock`, the only release
/// path.
pub struct SpinGuard<T> {
    pub value: T,
}

/// Protects a single owned value. Not fair and not recursive; not safe to
/// share with an interrupt handler on the same core without disabling
/// interrupts first (no such handlers exist yet).
pub struct SpinLock<T> {
    locked: bool,
    slot: Option<T>,
}

impl<T> SpinLock<T> {
    /// The lock bit and the stored value agree: the value is out on loan
    /// exactly while the lock is held.
    pub closed spec fn wf(&self) -> bool {
        self.locked <==> self.slot is None
    }

    pub closed spec fn is_held(&self) -> bool {
        self.locked
    }

    /// The protected value; present exactly while the lock is free.
    pub closed spec fn contents(&self) -> Option<T> {
        self.slot
    }

    pub fn new(value: T) -> (lock: Self)
        ensures
            lock.wf(),
            !lock.is_held(),
            lock.contents() == Some(value),
    {
        SpinLock { locked: false, slot: Some(value) }
    }

    /// Takes the lock. The hardware primitive busy-waits until the bit
    /// clears; on a single core nothing can clear it while we spin, so a call
    /// on a held lock would hang forever and is excluded ahead of time
    /// instead.
    pub fn lock(&mut self) -> (guard: SpinGuard<T>)
        requires
            old(self).wf(),
            !old(self).is_held(),
        ensures
            final(self).wf(),
            final(self).is_held(),
            Some(guard.value) == old(self).contents(),
    {
        self.locked = true;
        match self.slot.take() {
            Some(value) => SpinGuard { value },
            None => unreached(),
        }
    }

    /// One acquisition attempt: takes a free lock, reports failure on a held
    /// one instead of waiting.
    pub fn try_lock(&mut self) -> (guard: Option<SpinGuard<T>>)
        requires
            old(self).wf(),
        ensures
            final(self).wf(),
            old(self).is_held() ==> guard is None && *final(self) == *old(self),
            !old(self).is_held() ==> {
                &&& guard is Some
                &&& final(self).is_held()
                &&& Some(guard->Some_0.value) == old(self).contents()
            },
    {
        if self.locked {
            None
        } else {
            self.locked = true;
            match self.slot.take() {
                Some(value) => Some(SpinGuard { value }),
                None => unreached(),
            }
        }
    }

    /// Whether the lock bit is set; best-effort, for diagnostics only.
    pub fn is_locked(&self) -> (held: bool)
        ensures
            held == self.is_held(),
    {
        self.locked
    }

    /// Releases the lock, publishing the guarded value for the next holder.
    /// Consuming the guard is the only way to release, so a released lock has
    /// no live guard.
    pub fn unlock(&mut self, guard: SpinGuard<T>)
        requires
            old(self).wf(),
            old(self).is_held(),
        ensures
            final(self).wf(),
            !final(self).is_held(),
            final(self).contents() == Some(guard.value),
    {
        self.slot = Some(guard.value);
        self.locked = false;
    }
}

} // verus!
