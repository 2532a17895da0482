//! The mathematical model of a pool run.
//!
//! A run is a sequence of critical-section entries, one per unit, in the
//! order the units acquired the exclusive-access token. Each entry either
//! increments the counter by one or fails before completing its increment,
//! which poisons the token; an entry made against a poisoned token fails
//! without changing anything.

use vstd::prelude::*;

verus! {

/// The observable state of the shared counter: the protected value and
/// whether the exclusive-access token has been poisoned.
pub struct RunState {
    pub value: int,
    pub poisoned: bool,
}

/// One critical-section entry. On a poisoned token the acquisition fails and
/// nothing changes. Otherwise a failing unit poisons the token before
/// completing its increment, and a healthy unit adds exactly one.
pub open spec fn unit_step(s: RunState, unit_fails: bool) -> RunState {
    if s.poisoned {
        s
    } else if unit_fails {
        RunState { value: s.value, poisoned: true }
    } else {
        RunState { value: s.value + 1, poisoned: false }
    }
}

/// The state after every unit has made its single critical-section entry,
/// given the units' failure flags in the order they entered.
pub open spec fn run_units(s: RunState, fails: Seq<bool>) -> RunState
    decreases fails.len(),
{
    if fails.len() == 0 {
        s
    } else {
        run_units(unit_step(s, fails.first()), fails.drop_first())
    }
}

/// Running one more unit after a run is the same as one further step.
pub proof fn lemma_run_units_snoc(s: RunState, fails: Seq<bool>, b: bool)
    ensures
        run_units(s, fails.push(b)) == unit_step(run_units(s, fails), b),
    decreases fails.len(),
{
    reveal_with_fuel(run_units, 2);
    if fails.len() == 0 {
        assert(fails.push(b).first() == b);
        assert(fails.push(b).drop_first() =~= fails);
    } else {
        assert(fails.push(b).first() == fails.first());
        assert(fails.push(b).drop_first() =~= fails.drop_first().push(b));
        lemma_run_units_snoc(unit_step(s, fails.first()), fails.drop_first(), b);
    }
}

/// No run loses value or adds more than one per unit, and a poisoned token
/// stays poisoned.
pub proof fn lemma_run_units_bounds(s: RunState, fails: Seq<bool>)
    ensures
        s.value <= run_units(s, fails).value <= s.value + fails.len(),
        s.poisoned ==> run_units(s, fails) == s,
    decreases fails.len(),
{
    if fails.len() != 0 {
        lemma_run_units_bounds(unit_step(s, fails.first()), fails.drop_first());
    }
}

/// No lost and no duplicated increments: when no unit fails, a run of `n`
/// units moves the counter from `initial` to exactly `initial + n` and leaves
/// the token intact.
pub proof fn lemma_run_units_no_failure(s: RunState, fails: Seq<bool>)
    requires
        !s.poisoned,
        forall|k: int| 0 <= k < fails.len() ==> !fails[k],
    ensures
        run_units(s, fails) == (RunState { value: s.value + fails.len(), poisoned: false }),
    decreases fails.len(),
{
    if fails.len() != 0 {
        assert(!fails[0]);
        assert(forall|k: int| 0 <= k < fails.drop_first().len() ==> !#[trigger] fails.drop_first()[k]);
        lemma_run_units_no_failure(unit_step(s, fails.first()), fails.drop_first());
    }
}

/// Determinism of the aggregate: two runs of the same number of units from
/// the same state end with the same final value whatever the interleaving,
/// provided no unit fails, because the increments commute.
pub proof fn lemma_run_deterministic(s: RunState, fails1: Seq<bool>, fails2: Seq<bool>)
    requires
        !s.poisoned,
        fails1.len() == fails2.len(),
        forall|k: int| 0 <= k < fails1.len() ==> !fails1[k],
        forall|k: int| 0 <= k < fails2.len() ==> !fails2[k],
    ensures
        run_units(s, fails1) == run_units(s, fails2),
{
    lemma_run_units_no_failure(s, fails1);
    lemma_run_units_no_failure(s, fails2);
}

/// If any unit fails before completing its increment, the run ends with the
/// token poisoned, whatever the order of entries.
pub proof fn lemma_any_failure_poisons(s: RunState, fails: Seq<bool>)
    requires
        exists|k: int| 0 <= k < fails.len() && fails[k],
    ensures
        run_units(s, fails).poisoned,
    decreases fails.len(),
{
    let k = choose|k: int| 0 <= k < fails.len() && fails[k];
    if k == 0 {
        lemma_run_units_bounds(unit_step(s, fails.first()), fails.drop_first());
    } else {
        assert(fails.drop_first()[k - 1] == fails[k]);
        lemma_any_failure_poisons(unit_step(s, fails.first()), fails.drop_first());
    }
}

} // verus!
