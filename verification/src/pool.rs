//! The worker pool: spawning units, running each unit's single
//! critical-section entry, joining, and the whole scenario end to end.

use vstd::prelude::*;

use crate::counter::SharedCounter;
use crate::errors::PoolError;
use crate::schedule::{
    lemma_any_failure_poisons, lemma_run_units_bounds, lemma_run_units_no_failure,
    lemma_run_units_snoc, run_units, unit_step, RunState,
};

verus! {

/// Where a work unit stands in its life: created but not yet run, finished
/// its increment, or terminated abnormally.
#[derive(Clone, Copy, Debug, PartialEq, Eq, Structural)]
pub enum UnitStatus {
    Pending,
    Completed,
    Panicked,
}

/// A deferred computation: exactly one critical-section entry that increments
/// the shared counter by one, plus the record the orchestrator later joins
/// on. A unit may carry an injected failure, in which case it terminates
/// abnormally inside the critical section before completing its increment.
#[derive(Clone, Copy, Debug)]
pub struct WorkUnit {
    injected_failure: bool,
    status: UnitStatus,
}

impl WorkUnit {
    /// Whether this unit will fail inside the critical section.
    pub closed spec fn fails(self) -> bool {
        self.injected_failure
    }

    /// Where the unit stands in its life.
    pub closed spec fn status(self) -> UnitStatus {
        self.status
    }

    /// A pending unit that will increment the counter once.
    pub fn new() -> (u: WorkUnit)
        ensures
            u.status() is Pending,
            !u.fails(),
    {
        WorkUnit { injected_failure: false, status: UnitStatus::Pending }
    }

    /// A pending unit that will fail inside the critical section before
    /// completing its increment: the injected failure of the failure path.
    pub fn new_failing() -> (u: WorkUnit)
        ensures
            u.status() is Pending,
            u.fails(),
    {
        WorkUnit { injected_failure: true, status: UnitStatus::Pending }
    }

    pub fn is_pending(&self) -> (r: bool)
        ensures
            r == (self.status() is Pending),
    {
        self.status == UnitStatus::Pending
    }

    pub fn is_completed(&self) -> (r: bool)
        ensures
            r == (self.status() is Completed),
    {
        self.status == UnitStatus::Completed
    }

    pub fn is_panicked(&self) -> (r: bool)
        ensures
            r == (self.status() is Panicked),
    {
        self.status == UnitStatus::Panicked
    }

    /// The unit's single critical-section entry. A healthy unit on an intact
    /// token increments the counter and completes; a unit that fails, or one
    /// whose acquisition fails on a poisoned token, terminates abnormally and
    /// leaves the value untouched.
    pub fn run(&mut self, counter: &mut SharedCounter)
        requires
            old(self).status() is Pending,
            !old(counter)@.poisoned && !old(self).fails() ==> old(counter)@.value < i64::MAX as int,
        ensures
            final(self).fails() == old(self).fails(),
            final(counter)@ == unit_step(old(counter)@, old(self).fails()),
            final(self).status() == (if !old(counter)@.poisoned && !old(self).fails() {
                UnitStatus::Completed
            } else {
                UnitStatus::Panicked
            }),
    {
        if self.injected_failure {
            counter.fail_while_holding();
            self.status = UnitStatus::Panicked;
        } else {
            match counter.lock_increment() {
                Ok(()) => {
                    self.status = UnitStatus::Completed;
                },
                Err(_) => {
                    self.status = UnitStatus::Panicked;
                },
            }
        }
    }
}

/// The failure flags of a pool's units, in index order.
pub open spec fn fail_flags(units: Seq<WorkUnit>) -> Seq<bool> {
    units.map_values(|u: WorkUnit| u.fails())
}

/// Creates one shared counter seeded at `initial` and `n` pending units, each
/// of which will perform exactly one critical-section entry incrementing the
/// counter by one.
pub fn spawn_pool(n: usize, initial: i64) -> (r: (SharedCounter, Vec<WorkUnit>))
    ensures
        r.0@ == (RunState { value: initial as int, poisoned: false }),
        r.1@.len() == n,
        forall|i: int| 0 <= i < n ==> (#[trigger] r.1@[i]).status() is Pending,
        forall|i: int| 0 <= i < n ==> !(#[trigger] r.1@[i]).fails(),
{
    let counter = SharedCounter::new(initial);
    let mut units: Vec<WorkUnit> = Vec::new();
    let mut i: usize = 0;
    while i < n
        invariant
            i <= n,
            units@.len() == i,
            forall|k: int| 0 <= k < i ==> (#[trigger] units@[k]).status() is Pending,
            forall|k: int| 0 <= k < i ==> !(#[trigger] units@[k]).fails(),
        decreases n - i,
    {
        units.push(WorkUnit::new());
        i = i + 1;
    }
    (counter, units)
}

/// As `spawn_pool`, but the unit at index `failing` carries an injected
/// failure: it will terminate abnormally inside the critical section before
/// completing its increment.
pub fn spawn_pool_with_failure(n: usize, initial: i64, failing: usize) -> (r: (
    SharedCounter,
    Vec<WorkUnit>,
))
    requires
        failing < n,
    ensures
        r.0@ == (RunState { value: initial as int, poisoned: false }),
        r.1@.len() == n,
        forall|i: int| 0 <= i < n ==> (#[trigger] r.1@[i]).status() is Pending,
        forall|i: int| 0 <= i < n ==> ((#[trigger] r.1@[i]).fails() <==> i == failing),
{
    let counter = SharedCounter::new(initial);
    let mut units: Vec<WorkUnit> = Vec::new();
    let mut i: usize = 0;
    while i < n
        invariant
            i <= n,
            units@.len() == i,
            forall|k: int| 0 <= k < i ==> (#[trigger] units@[k]).status() is Pending,
            forall|k: int| 0 <= k < i ==> ((#[trigger] units@[k]).fails() <==> k == failing),
        decreases n - i,
    {
        if i == failing {
            units.push(WorkUnit::new_failing());
        } else {
            units.push(WorkUnit::new());
        }
        i = i + 1;
    }
    (counter, units)
}

/// Runs every pending unit once, each making its single critical-section
/// entry, in index order. The counter ends in exactly the state the model
/// predicts for the units' failure flags, and each unit's status records
/// whether its increment completed.
pub fn run_all(counter: &mut SharedCounter, units: &mut Vec<WorkUnit>)
    requires
        forall|i: int|
            0 <= i < old(units)@.len() ==> (#[trigger] old(units)@[i]).status() is Pending,
        old(counter)@.value + old(units)@.len() <= i64::MAX as int,
    ensures
        final(units)@.len() == old(units)@.len(),
        forall|i: int|
            0 <= i < old(units)@.len() ==> (#[trigger] final(units)@[i]).fails() == old(
                units,
            )@[i].fails(),
        final(counter)@ == run_units(old(counter)@, fail_flags(old(units)@)),
        forall|i: int|
            0 <= i < old(units)@.len() ==> (#[trigger] final(units)@[i]).status() == (if !run_units(
                old(counter)@,
                fail_flags(old(units)@).take(i),
            ).poisoned && !old(units)@[i].fails() {
                UnitStatus::Completed
            } else {
                UnitStatus::Panicked
            }),
{
    let ghost init: RunState = counter@;
    let ghost flags: Seq<bool> = fail_flags(units@);
    let n = units.len();
    let mut i: usize = 0;
    while i < n
        invariant
            i <= n,
            n == units@.len(),
            flags.len() == n,
            init.value + n <= i64::MAX as int,
            forall|k: int| 0 <= k < n ==> (#[trigger] units@[k]).fails() == flags[k],
            forall|k: int| i <= k < n ==> (#[trigger] units@[k]).status() is Pending,
            counter@ == run_units(init, flags.take(i as int)),
            forall|k: int|
                0 <= k < i ==> (#[trigger] units@[k]).status() == (if !run_units(
                    init,
                    flags.take(k),
                ).poisoned && !flags[k] {
                    UnitStatus::Completed
                } else {
                    UnitStatus::Panicked
                }),
        decreases n - i,
    {
        proof {
            assert(flags.take(i as int).len() == i as int);
            lemma_run_units_bounds(init, flags.take(i as int));
        }
        let mut u = units[i];
        u.run(counter);
        units.set(i, u);
        proof {
            assert(flags.take(i + 1 as int) =~= flags.take(i as int).push(flags[i as int]));
            lemma_run_units_snoc(init, flags.take(i as int), flags[i as int]);
        }
        i = i + 1;
    }
    proof {
        assert(flags.take(n as int) =~= flags);
        assert(fail_flags(old(units)@) =~= flags);
    }
}

/// Waits on every unit. Succeeds exactly when every unit completed its
/// increment; otherwise reports the first unit that terminated abnormally.
pub fn join_all(units: &Vec<WorkUnit>) -> (r: Result<(), PoolError>)
    requires
        forall|i: int|
            0 <= i < units@.len() ==> !((#[trigger] units@[i]).status() is Pending),
    ensures
        match r {
            Ok(()) => forall|i: int|
                0 <= i < units@.len() ==> (#[trigger] units@[i]).status() is Completed,
            Err(e) => (e matches PoolError::UnitPanic(j) && 0 <= j < units@.len()
                && units@[j as int].status() is Panicked && (forall|k: int|
                0 <= k < j ==> (#[trigger] units@[k]).status() is Completed)),
        },
{
    let n = units.len();
    let mut i: usize = 0;
    while i < n
        invariant
            i <= n,
            n == units@.len(),
            forall|k: int|
                0 <= k < n ==> !((#[trigger] units@[k]).status() is Pending),
            forall|k: int| 0 <= k < i ==> (#[trigger] units@[k]).status() is Completed,
        decreases n - i,
    {
        let u = units[i];
        if !(u.status == UnitStatus::Completed) {
            return Err(PoolError::UnitPanic(i));
        }
        i = i + 1;
    }
    Ok(())
}

/// The whole scenario on the success path: spawn `n` units against a counter
/// seeded at `initial`, run them all, join them all, and read. No increment
/// is lost or applied twice: the result is exactly `initial + n`.
pub fn run_pool(n: usize, initial: i64) -> (r: Result<i64, PoolError>)
    requires
        initial as int + n as int <= i64::MAX as int,
    ensures
        r matches Ok(v) && v as int == initial as int + n as int,
{
    let (mut counter, mut units) = spawn_pool(n, initial);
    let ghost init: RunState = counter@;
    let ghost flags: Seq<bool> = fail_flags(units@);
    run_all(&mut counter, &mut units);
    proof {
        assert(forall|k: int| 0 <= k < flags.len() ==> !flags[k]);
        lemma_run_units_no_failure(init, flags);
        assert forall|i: int|
            0 <= i < units@.len() implies (#[trigger] units@[i]).status() is Completed by {
            assert(forall|k: int| 0 <= k < flags.take(i).len() ==> !#[trigger] flags.take(i)[k]);
            lemma_run_units_no_failure(init, flags.take(i));
        }
    }
    match join_all(&units) {
        Ok(()) => counter.read(),
        Err(e) => {
            proof {
                assert(false);
            }
            Err(e)
        },
    }
}

/// The whole scenario on the failure path: as `run_pool`, but the unit at
/// index `failing` terminates abnormally inside the critical section before
/// completing its increment. Joining reports that unit's panic, and the final
/// read fails with `PoolError::LockPoisoned` rather than returning a value
/// silently.
pub fn run_pool_with_failure(n: usize, initial: i64, failing: usize) -> (r: (
    Result<(), PoolError>,
    Result<i64, PoolError>,
))
    requires
        failing < n,
        initial as int + n as int <= i64::MAX as int,
    ensures
        r.0 == Err::<(), PoolError>(PoolError::UnitPanic(failing)),
        r.1 == Err::<i64, PoolError>(PoolError::LockPoisoned),
{
    let (mut counter, mut units) = spawn_pool_with_failure(n, initial, failing);
    let ghost init: RunState = counter@;
    let ghost flags: Seq<bool> = fail_flags(units@);
    run_all(&mut counter, &mut units);
    proof {
        assert(flags[failing as int]);
        lemma_any_failure_poisons(init, flags);
        assert forall|i: int|
            0 <= i < failing implies (#[trigger] units@[i]).status() is Completed by {
            assert(forall|k: int| 0 <= k < flags.take(i).len() ==> !#[trigger] flags.take(i)[k]);
            lemma_run_units_no_failure(init, flags.take(i));
        }
        assert(units@[failing as int].status() is Panicked);
    }
    let jr = join_all(&units);
    proof {
        match jr {
            Ok(()) => {
                assert(units@[failing as int].status() is Completed);
                assert(false);
            },
            Err(e) => {
                match e {
                    PoolError::UnitPanic(j) => {
                        if j < failing {
                            assert(units@[j as int].status() is Completed);
                            assert(false);
                        }
                        if j > failing {
                            assert(units@[failing as int].status() is Completed);
                            assert(false);
                        }
                        assert(j == failing);
                    },
                    PoolError::LockPoisoned => {
                        assert(false);
                    },
                }
            },
        }
    }
    let rr = counter.read();
    (jr, rr)
}

} // verus!
