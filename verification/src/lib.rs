//! A bounded worker pool driving a fixed number of work units against one
//! shared counter.
//!
//! The pool spawns `n` independent units, each of which performs exactly one
//! critical-section entry that increments a shared integer by one, then
//! terminates. The orchestrator joins every unit before reading the final
//! value. A unit that fails while holding the exclusive-access token poisons
//! the token: every later acquisition fails rather than trusting a possibly
//! half-written value.

pub mod counter;
pub mod errors;
pub mod pool;
pub mod schedule;

pub use counter::SharedCounter;
pub use errors::PoolError;
pub use pool::{UnitStatus, WorkUnit};
pub use pool::{join_all, run_all, run_pool, run_pool_with_failure, spawn_pool, spawn_pool_with_failure};
pub use schedule::{RunState, run_units, unit_step};
