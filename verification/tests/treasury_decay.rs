use task_manager_pro::treasury::{decay_retained_bps, MAX_DECAY_PERIODS};

#[test]
fn test_decay_retained_bps_halves_each_period() {
    // 50% retention per period is a straightforward halving curve.
    assert_eq!(decay_retained_bps(5000, 0), 10000);
    assert_eq!(decay_retained_bps(5000, 1), 5000);
    assert_eq!(decay_retained_bps(5000, 2), 2500);
    assert_eq!(decay_retained_bps(5000, 3), 1250);
    assert_eq!(decay_retained_bps(5000, 4), 625);
    assert_eq!(decay_retained_bps(5000, 5), 312);
}

#[test]
fn test_decay_retained_bps_zero_periods_is_fully_unvested() {
    assert_eq!(decay_retained_bps(9000, 0), 10000);
    assert_eq!(decay_retained_bps(1, 0), 10000);
}

#[test]
fn test_decay_retained_bps_slow_decay_converges_toward_zero() {
    // 90% retention per period decays slowly but still reaches (rounds down
    // to) zero well within MAX_DECAY_PERIODS.
    assert_eq!(decay_retained_bps(9000, 500), 0);
    assert!(decay_retained_bps(9000, 10) > decay_retained_bps(9000, 50));
}

#[test]
fn test_decay_retained_bps_caps_at_max_periods() {
    let at_cap = decay_retained_bps(9999, MAX_DECAY_PERIODS);
    let beyond_cap = decay_retained_bps(9999, MAX_DECAY_PERIODS + 10_000);
    assert_eq!(at_cap, beyond_cap);
}

#[test]
fn test_decay_retained_bps_zero_rate_fully_releases_after_one_period() {
    assert_eq!(decay_retained_bps(0, 0), 10000);
    assert_eq!(decay_retained_bps(0, 1), 0);
}
