//! Exclusive locks for a single core without atomic instructions.
//!
//! Mutual exclusion is obtained by keeping interrupts disabled around the
//! flag update; the flag logic itself is what this module states and proves.
use vstd::prelude::*;

verus! {

/// The outcome of one acquisition attempt on a lock whose flag is `locked`:
/// whether it succeeded, and the flag afterwards.
pub open spec fn try_lock_outcome(locked: bool) -> (bool, bool) {
    (!locked, true)
}

/// A single boolean flag guarding one resource.
pub struct Lock {
    locked: bool,
}

/// Whatever state a lock is in, two acquisitions with no release between
/// them never both succeed, and an acquisition right after a release succeeds.
pub proof fn lemma_lock_mutual_exclusion(locked: bool)
    ensures
        !(try_lock_outcome(locked).0 && try_lock_outcome(try_lock_outcome(locked).1).0),
        !try_lock_outcome(try_lock_outcome(locked).1).0,
        try_lock_outcome(false).0,
{
}

impl View for Lock {
    type V = bool;

    /// Whether the lock is currently held.
    closed spec fn view(&self) -> bool {
        self.locked
    }
}

impl Lock {
    /// A lock that nobody holds.
    pub fn new() -> (r: Lock)
        ensures
            !r@,
    {
        Lock { locked: false }
    }

    /// Takes the lock if it is free; fails, leaving it held, otherwise.
    pub fn try_lock(&mut self) -> (r: Result<(), ()>)
        ensures
            (r is Ok, final(self)@) == try_lock_outcome(old(self)@),
    {
        if !self.locked {
            self.locked = true;
            Ok(())
        } else {
            Err(())
        }
    }

    /// Releases the lock; only its holder calls this.
    pub fn unlock(&mut self)
        ensures
            !final(self)@,
    {
        self.locked = false;
    }

    /// Releases the lock when its holder goes out of scope.
    pub(crate) fn release(&mut self)
        opens_invariants none
        no_unwind
    {
        self.locked = false;
    }

    /// Whether the lock is currently held.
    pub fn is_locked(&self) -> (r: bool)
        ensures
            r == self@,
    {
        self.locked
    }
}

/// A value together with the lock that guards it.
pub struct Mutex<T> {
    lock: Lock,
    elem: T,
}

/// Exclusive access to the value of a `Mutex`, granted while its lock is held.
pub struct MutexHandle<'a, T> {
    mutex: &'a mut Mutex<T>,
}

impl<T> Mutex<T> {
    /// Whether the guarding lock is held.
    pub closed spec fn held(&self) -> bool {
        self.lock@
    }

    /// The guarded value.
    pub closed spec fn value(&self) -> T {
        self.elem
    }

    /// A mutex around `elem`, not held.
    pub fn new(elem: T) -> (r: Mutex<T>)
        ensures
            !r.held(),
            r.value() == elem,
    {
        Mutex { lock: Lock::new(), elem }
    }

    /// Takes the lock and hands out exclusive access to the value; fails,
    /// changing nothing, when the lock is already held.
    pub fn try_acquire(&mut self) -> (r: Result<MutexHandle<'_, T>, ()>)
        ensures
            r is Ok <==> !old(self).held(),
            r is Err ==> *final(self) == *old(self),
            r matches Ok(h) ==> h.value() == old(self).value(),
    {
        if self.lock.try_lock().is_ok() {
            Ok(MutexHandle { mutex: self })
        } else {
            Err(())
        }
    }
}

impl<'a, T> MutexHandle<'a, T> {
    /// The value this handle grants access to.
    pub closed spec fn value(&self) -> T {
        self.mutex.elem
    }

    /// Shared access to the guarded value.
    pub fn get(&self) -> (r: &T)
        ensures
            *r == self.value(),
    {
        &self.mutex.elem
    }

    /// Exclusive access to the guarded value.
    pub fn get_mut(&mut self) -> (r: &mut T)
        ensures
            *r == old(self).value(),
            final(self).value() == *final(r),
    {
        &mut self.mutex.elem
    }
}

impl<'a, T> Drop for MutexHandle<'a, T> {
    fn drop(&mut self)
        opens_invariants none
        no_unwind
    {
        self.mutex.lock.release();
    }
}

} // verus!
