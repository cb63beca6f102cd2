use lbp_native::threshold::{remaining_wait, scrobble_threshold};

#[test]
fn short_track_threshold_is_one_second_short() {
    assert_eq!(scrobble_threshold(40_000), 39_000);
    assert_eq!(scrobble_threshold(30_000), 29_000);
    assert_eq!(scrobble_threshold(1_000), 0);
}

#[test]
fn long_track_threshold_is_half_or_four_minutes() {
    assert_eq!(scrobble_threshold(40_001), 20_000);
    assert_eq!(scrobble_threshold(200_000), 100_000);
    assert_eq!(scrobble_threshold(480_000), 240_000);
    assert_eq!(scrobble_threshold(1_000_000), 240_000);
    assert_eq!(scrobble_threshold(u64::MAX), 240_000);
}

#[test]
fn sub_second_track_saturates_at_zero() {
    assert_eq!(scrobble_threshold(0), 0);
    assert_eq!(scrobble_threshold(999), 0);
    assert_eq!(remaining_wait(999, 0, 1), None);
}

#[test]
fn threshold_monotone_within_each_rule() {
    let mut prev = scrobble_threshold(1_000);
    for d in (1_000..=40_000u64).step_by(500) {
        let t = scrobble_threshold(d);
        assert!(t >= prev);
        prev = t;
    }
    let mut prev = scrobble_threshold(40_001);
    for d in (40_001..=600_000u64).step_by(997) {
        let t = scrobble_threshold(d);
        assert!(t >= prev);
        assert!(t <= 240_000);
        prev = t;
    }
}

#[test]
fn wait_subtracts_position() {
    assert_eq!(remaining_wait(30_000, 0, 1), Some(29_000));
    assert_eq!(remaining_wait(30_000, 10, 1), Some(19_000));
    assert_eq!(remaining_wait(300_000, 60, 1), Some(90_000));
}

#[test]
fn no_wait_at_or_past_threshold() {
    assert_eq!(remaining_wait(30_000, 29, 1), None);
    assert_eq!(remaining_wait(30_000, 100, 1), None);
    assert_eq!(remaining_wait(30_000, 28, 1), Some(1_000));
    assert_eq!(remaining_wait(30_000, -1, 1), None);
}

#[test]
fn double_speed_halves_the_wait() {
    assert_eq!(remaining_wait(30_000, 0, 2), Some(14_500));
    assert_eq!(remaining_wait(300_000, 60, 2), Some(45_000));
}
