//! The lock that keeps a second instance of the updater from running.
//!
//! The lock itself is a resource of the operating system, bound to one fixed
//! name and given back by the system when the process ends, however it
//! ends. Here stands what the process knows of it: whether it holds the
//! lock, and what an attempt to take or to give it back comes to.

use vstd::prelude::*;
use crate::error::{ErrorKind, ErrorView, UpdateError};

verus! {

/// What a process knows of the lock.
#[derive(Clone, Copy, Debug, PartialEq, Eq, Structural)]
pub struct Locker {
    held: bool,
}

impl Locker {
    /// Whether this process holds the lock.
    pub closed spec fn spec_is_locked(&self) -> bool {
        self.held
    }

    /// A process that does not hold the lock.
    pub fn new() -> (l: Locker)
        ensures
            !l.spec_is_locked(),
    {
        Locker { held: false }
    }

    /// Whether this process holds the lock.
    #[verifier::when_used_as_spec(spec_is_locked)]
    pub fn is_locked(&self) -> (r: bool)
        ensures
            r == self.spec_is_locked(),
    {
        self.held
    }

    /// Whether taking the lock has to ask the system: not so where the
    /// process holds it already.
    pub fn must_ask(&self) -> (r: bool)
        ensures
            r == !self.spec_is_locked(),
    {
        !self.held
    }

    /// Takes the lock. `granted` is what the system answered when it was
    /// asked for the lock; it counts only where the process did not hold the
    /// lock before. The result says whether the process holds the lock now:
    /// it does where it held it before or the system has granted it.
    pub fn lock(&mut self, granted: bool) -> (r: bool)
        ensures
            r == (old(self).spec_is_locked() || granted),
            final(self).spec_is_locked() == r,
    {
        if !self.held {
            self.held = granted;
        }
        self.held
    }

    /// Gives the lock back. `released` is what the system answered when it
    /// was asked to release it. The result says whether the lock was given
    /// back by this call.
    pub fn unlock(&mut self, released: bool) -> (r: bool)
        ensures
            r == (old(self).spec_is_locked() && released),
            final(self).spec_is_locked() == (old(self).spec_is_locked() && !released),
    {
        if self.held && released {
            self.held = false;
            true
        } else {
            false
        }
    }

    /// Takes the lock, or fails because another instance holds it.
    pub fn acquire(&mut self, granted: bool) -> (r: Result<(), UpdateError>)
        ensures
            final(self).spec_is_locked() == (old(self).spec_is_locked() || granted),
            match r {
                Ok(_) => final(self).spec_is_locked(),
                Err(e) => !final(self).spec_is_locked() && e@ == (ErrorView {
                    kind: ErrorKind::LockHeld,
                    message: "Process already running!"@,
                }),
            },
    {
        if self.lock(granted) {
            Ok(())
        } else {
            Err(UpdateError::new(ErrorKind::LockHeld, "Process already running!"))
        }
    }
}

impl Default for Locker {
    fn default() -> (l: Locker)
        ensures
            !l.spec_is_locked(),
    {
        Locker::new()
    }
}

} // verus!
