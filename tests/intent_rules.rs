use kinematics_engine::intent::{classify, compression_for, Intent, MotionTraits};

fn traits(nearly_still: bool, short: bool, slow: bool, rising: bool, long: bool) -> MotionTraits {
    MotionTraits { nearly_still, short, slow, rising, long }
}

#[test]
fn still_motion_is_idle_whatever_else() {
    assert_eq!(classify(&traits(true, true, true, true, true)), Intent::Idle);
    assert_eq!(classify(&traits(true, false, false, false, false)), Intent::Idle);
    assert_eq!(classify(&traits(true, false, false, true, true)).label(), "idle");
}

#[test]
fn rules_apply_in_priority_order() {
    assert_eq!(classify(&traits(false, true, true, true, true)), Intent::Grasp);
    assert_eq!(classify(&traits(false, true, false, true, true)), Intent::Release);
    assert_eq!(classify(&traits(false, false, true, true, false)), Intent::Release);
    assert_eq!(classify(&traits(false, false, false, false, true)), Intent::Traverse);
    assert_eq!(classify(&traits(false, true, false, false, false)), Intent::Reach);
}

#[test]
fn labels() {
    assert_eq!(Intent::Idle.label(), "idle");
    assert_eq!(Intent::Grasp.label(), "grasp");
    assert_eq!(Intent::Release.label(), "release");
    assert_eq!(Intent::Traverse.label(), "traverse");
    assert_eq!(Intent::Reach.label(), "reach");
}

#[test]
fn compression_of_empty_series() {
    let c = compression_for(0);
    assert_eq!(c.original_samples, 0);
    assert_eq!(c.original_bytes, 0);
    assert_eq!(c.compressed_bytes, 0);
    assert_eq!(c.ratio, 0);
}

#[test]
fn compression_ratio_is_three_per_sample() {
    let c = compression_for(5);
    assert_eq!(c.original_samples, 5);
    assert_eq!(c.original_bytes, 120);
    assert_eq!(c.compressed_bytes, 8);
    assert_eq!(c.ratio, 15);
    assert_eq!(compression_for(1).ratio, 3);
}

#[test]
fn compression_of_largest_count() {
    let c = compression_for(usize::MAX);
    assert_eq!(c.original_bytes, 24 * (usize::MAX as u128));
    assert_eq!(c.ratio, 3 * (usize::MAX as u128));
}
