use kinematics_engine::stats::EngineStats;

#[test]
fn counters_start_at_zero_and_count_separately() {
    let mut s = EngineStats::new();
    assert_eq!(s.total_solves(), 0);
    s.record_ik_solve();
    s.record_ik_solve();
    s.record_fk_solve();
    s.record_compression();
    s.record_trajectory();
    s.record_trajectory();
    s.record_trajectory();
    assert_eq!(s.total_ik_solves, 2);
    assert_eq!(s.total_fk_solves, 1);
    assert_eq!(s.total_compressions, 1);
    assert_eq!(s.total_trajectories, 3);
    assert_eq!(s.total_solves(), 3);
}

#[test]
fn counters_stay_at_the_maximum() {
    let mut s = EngineStats::new();
    s.total_ik_solves = u64::MAX;
    s.record_ik_solve();
    assert_eq!(s.total_ik_solves, u64::MAX);
    s.record_fk_solve();
    assert_eq!(s.total_solves(), u64::MAX);
}
