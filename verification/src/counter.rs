//! The shared counter: one integer behind an exclusive-access token that is
//! poisoned when a holder fails mid-update.

use vstd::prelude::*;

use crate::errors::PoolError;
use crate::schedule::{unit_step, RunState};

verus! {

/// An integer protected by an exclusive-access token. At most one holder may
/// read-modify-write the value at a time; a holder that terminates abnormally
/// inside the critical section poisons the token, and every later acquisition
/// fails with `PoolError::LockPoisoned` rather than trusting a possibly
/// half-written value.
pub struct SharedCounter {
    val: i64,
    poisoned: bool,
}

impl View for SharedCounter {
    type V = RunState;

    closed spec fn view(&self) -> RunState {
        RunState { value: self.val as int, poisoned: self.poisoned }
    }
}

impl SharedCounter {
    /// A fresh counter seeded at `initial`, its token intact.
    pub fn new(initial: i64) -> (c: SharedCounter)
        ensures
            c@ == (RunState { value: initial as int, poisoned: false }),
    {
        SharedCounter { val: initial, poisoned: false }
    }

    /// One complete critical-section entry: acquire the token, add one,
    /// release. On a poisoned token the acquisition fails and the value is
    /// untouched.
    pub fn lock_increment(&mut self) -> (r: Result<(), PoolError>)
        requires
            !old(self)@.poisoned ==> old(self)@.value < i64::MAX as int,
        ensures
            final(self)@ == unit_step(old(self)@, false),
            old(self)@.poisoned ==> r == Err::<(), PoolError>(PoolError::LockPoisoned),
            !old(self)@.poisoned ==> r == Ok::<(), PoolError>(()),
    {
        if self.poisoned {
            Err(PoolError::LockPoisoned)
        } else {
            self.val = self.val + 1;
            Ok(())
        }
    }

    /// A holder that acquires the token and terminates abnormally before
    /// completing its update: the token is poisoned and the value is left as
    /// it was. Against an already-poisoned token the acquisition itself
    /// fails, and the token simply stays poisoned.
    pub fn fail_while_holding(&mut self)
        ensures
            final(self)@ == unit_step(old(self)@, true),
    {
        self.poisoned = true;
    }

    /// Acquire the token, read the value, release. Fails with
    /// `PoolError::LockPoisoned` once the token is poisoned.
    pub fn read(&self) -> (r: Result<i64, PoolError>)
        ensures
            self@.poisoned ==> r == Err::<i64, PoolError>(PoolError::LockPoisoned),
            !self@.poisoned ==> (r matches Ok(v) && v as int == self@.value),
    {
        if self.poisoned {
            Err(PoolError::LockPoisoned)
        } else {
            Ok(self.val)
        }
    }

    /// Explicit recovery: the stored value even when the token is poisoned,
    /// for a caller that chooses to inspect the possibly inconsistent value
    /// rather than silently trust it.
    pub fn recover(&self) -> (v: i64)
        ensures
            v as int == self@.value,
    {
        self.val
    }
}

} // verus!
