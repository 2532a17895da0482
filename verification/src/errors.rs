use vstd::prelude::*;

verus! {

/// A failure surfaced by the worker pool.
///
/// Every error here is fatal to the orchestrator: there is no retry and no
/// partial-result recovery.
#[derive(Clone, Copy, Debug, PartialEq, Eq, Structural)]
pub enum PoolError {
    /// A spawned unit terminated abnormally; the payload is the index of the
    /// unit that failed.
    UnitPanic(usize),
    /// An acquisition of the counter's exclusive-access token failed because
    /// an earlier holder terminated abnormally mid-update, so the protected
    /// value can no longer be trusted.
    LockPoisoned,
}

} // verus!
