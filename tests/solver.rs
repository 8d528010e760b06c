use kinematics_engine::ik::{joint_count, IkLoop, IkPhase, DEFAULT_MAX_ITERATIONS};

#[test]
fn first_iteration_within_tolerance_converges_at_once() {
    // target at the origin with all-zero angles: the first error is zero
    let mut l = IkLoop::new(100);
    assert!(l.is_running());
    let error = 0.0f64;
    l.record(error < 1e-6);
    assert!(!l.is_running());
    assert!(l.converged());
    assert_eq!(l.iterations, 1);
}

#[test]
fn budget_is_never_exceeded() {
    let mut l = IkLoop::new(3);
    let mut rounds = 0;
    while l.is_running() {
        l.record(false);
        rounds += 1;
    }
    assert_eq!(rounds, 3);
    assert_eq!(l.iterations, 3);
    assert_eq!(l.phase, IkPhase::Exhausted);
    assert!(!l.converged());
}

#[test]
fn convergence_midway_stops_the_loop() {
    let mut l = IkLoop::new(10);
    l.record(false);
    l.record(false);
    l.record(true);
    assert_eq!(l.phase, IkPhase::Converged);
    assert_eq!(l.iterations, 3);
    assert!(!l.is_running());
}

#[test]
fn zero_budget_runs_nothing() {
    let l = IkLoop::new(0);
    assert!(!l.is_running());
    assert_eq!(l.iterations, 0);
    assert_eq!(l.phase, IkPhase::Exhausted);
}

#[test]
fn defaults_apply_when_unspecified() {
    assert_eq!(IkLoop::with_limit(None).max_iterations, DEFAULT_MAX_ITERATIONS);
    assert_eq!(IkLoop::with_limit(None).max_iterations, 100);
    assert_eq!(IkLoop::with_limit(Some(5)).max_iterations, 5);
    assert_eq!(joint_count(None), 7);
    assert_eq!(joint_count(Some(4)), 4);
}
