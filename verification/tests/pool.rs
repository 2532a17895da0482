use worker_pool::{
    join_all, run_all, run_pool, run_pool_with_failure, spawn_pool, spawn_pool_with_failure,
    PoolError, SharedCounter,
};

#[test]
fn zero_units_yields_initial() {
    let (mut counter, mut units) = spawn_pool(0, 7);
    assert_eq!(units.len(), 0);
    run_all(&mut counter, &mut units);
    assert_eq!(join_all(&units), Ok(()));
    assert_eq!(counter.read(), Ok(7));
    assert_eq!(run_pool(0, 7), Ok(7));
}

#[test]
fn ten_units_from_zero() {
    assert_eq!(run_pool(10, 0), Ok(10));
}

#[test]
fn one_unit_from_five() {
    assert_eq!(run_pool(1, 5), Ok(6));
}

#[test]
fn negative_initial_value() {
    assert_eq!(run_pool(4, -2), Ok(2));
}

#[test]
fn same_inputs_same_final_value() {
    let first = run_pool(25, 100);
    let second = run_pool(25, 100);
    assert_eq!(first, Ok(125));
    assert_eq!(first, second);
}

#[test]
fn failing_third_unit_reports_panic_and_poison() {
    let (join_result, read_result) = run_pool_with_failure(3, 0, 2);
    assert_eq!(join_result, Err(PoolError::UnitPanic(2)));
    assert_eq!(read_result, Err(PoolError::LockPoisoned));
}

#[test]
fn failure_path_step_by_step() {
    let (mut counter, mut units) = spawn_pool_with_failure(3, 0, 2);
    assert!(units.iter().all(|u| u.is_pending()));
    run_all(&mut counter, &mut units);
    assert!(units[0].is_completed());
    assert!(units[1].is_completed());
    assert!(units[2].is_panicked());
    assert_eq!(join_all(&units), Err(PoolError::UnitPanic(2)));
    assert_eq!(counter.read(), Err(PoolError::LockPoisoned));
    // the two healthy units ran before the failing one
    assert_eq!(counter.recover(), 2);
}

#[test]
fn failure_in_first_unit_blocks_the_rest() {
    let (mut counter, mut units) = spawn_pool_with_failure(3, 10, 0);
    run_all(&mut counter, &mut units);
    assert!(units[0].is_panicked());
    // later units find the token poisoned and terminate abnormally too
    assert!(units[1].is_panicked());
    assert!(units[2].is_panicked());
    assert_eq!(join_all(&units), Err(PoolError::UnitPanic(0)));
    assert_eq!(counter.read(), Err(PoolError::LockPoisoned));
    assert_eq!(counter.recover(), 10);
}

#[test]
fn success_path_step_by_step() {
    let (mut counter, mut units) = spawn_pool(5, 1);
    assert_eq!(units.len(), 5);
    assert!(units.iter().all(|u| u.is_pending()));
    run_all(&mut counter, &mut units);
    assert!(units.iter().all(|u| u.is_completed()));
    assert_eq!(join_all(&units), Ok(()));
    assert_eq!(counter.read(), Ok(6));
}

#[test]
fn counter_increments_and_reads() {
    let mut counter = SharedCounter::new(5);
    assert_eq!(counter.read(), Ok(5));
    assert_eq!(counter.lock_increment(), Ok(()));
    assert_eq!(counter.read(), Ok(6));
    assert_eq!(counter.recover(), 6);
}

#[test]
fn poisoned_counter_refuses_every_acquisition() {
    let mut counter = SharedCounter::new(3);
    counter.fail_while_holding();
    assert_eq!(counter.read(), Err(PoolError::LockPoisoned));
    assert_eq!(counter.lock_increment(), Err(PoolError::LockPoisoned));
    assert_eq!(counter.read(), Err(PoolError::LockPoisoned));
    // explicit recovery still hands out the possibly inconsistent value
    assert_eq!(counter.recover(), 3);
}
