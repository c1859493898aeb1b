use chronoban::age::{secs_from_days, too_young, Timestamp, SECS_PER_DAY};

#[test]
fn age_equal_to_the_threshold_passes() {
    let now = Timestamp::new(1_700_000_000, 0);
    let then = Timestamp::new(1_700_000_000 - 30 * 86_400, 0);
    assert!(!too_young(&now, &then, 30 * 86_400));
}

#[test]
fn one_second_younger_than_the_threshold_is_held_back() {
    let now = Timestamp::new(1_700_000_000, 0);
    let then = Timestamp::new(1_700_000_000 - 30 * 86_400 + 1, 0);
    assert!(too_young(&now, &then, 30 * 86_400));
}

#[test]
fn one_nanosecond_younger_than_the_threshold_is_held_back() {
    let now = Timestamp::new(1_000, 0);
    let then = Timestamp::new(990, 1);
    assert!(too_young(&now, &then, 10));
    let at_threshold = Timestamp::new(990, 0);
    assert!(!too_young(&now, &at_threshold, 10));
}

#[test]
fn older_than_the_threshold_passes() {
    let now = Timestamp::new(1_700_000_000, 0);
    let then = Timestamp::new(1_600_000_000, 0);
    assert!(!too_young(&now, &then, 86_400));
}

#[test]
fn zero_minimum_age_holds_nothing_back() {
    let now = Timestamp::new(1_700_000_000, 500);
    assert!(!too_young(&now, &Timestamp::new(1_700_000_000, 500), 0));
    assert!(!too_young(&now, &Timestamp::new(1_700_000_000, 499), 0));
    assert!(!too_young(&now, &Timestamp::new(0, 0), 0));
    assert!(!too_young(&now, &Timestamp::new(1_800_000_000, 0), 0));
}

#[test]
fn timestamp_in_the_future_is_not_held_back() {
    let now = Timestamp::new(1_700_000_000, 0);
    let then = Timestamp::new(1_700_000_001, 0);
    assert!(!too_young(&now, &then, 30 * 86_400));
    let just_ahead = Timestamp::new(1_700_000_000, 1);
    assert!(!too_young(&now, &just_ahead, 30 * 86_400));
}

#[test]
fn age_of_zero_is_held_back_by_any_minimum() {
    let now = Timestamp::new(1_700_000_000, 0);
    assert!(too_young(&now, &now, 1));
}

#[test]
fn filter_works_across_the_epoch_and_at_the_limits() {
    let now = Timestamp::new(5, 0);
    let then = Timestamp::new(-5, 0);
    assert!(too_young(&now, &then, 11));
    assert!(!too_young(&now, &then, 10));
    let latest = Timestamp::new(i64::MAX, 999_999_999);
    let earliest = Timestamp::new(i64::MIN, 0);
    assert!(!too_young(&latest, &earliest, u64::MAX));
    assert!(!too_young(&earliest, &latest, u64::MAX));
    assert!(too_young(&latest, &Timestamp::new(0, 0), u64::MAX));
}

#[test]
fn days_become_seconds() {
    assert_eq!(SECS_PER_DAY, 86_400);
    assert_eq!(secs_from_days(0), Some(0));
    assert_eq!(secs_from_days(1), Some(86_400));
    assert_eq!(secs_from_days(30), Some(2_592_000));
    assert_eq!(secs_from_days(213_503_982_334_601), Some(18_446_744_073_709_526_400));
}

#[test]
fn too_many_days_have_no_seconds() {
    assert_eq!(secs_from_days(213_503_982_334_602), None);
    assert_eq!(secs_from_days(u64::MAX), None);
}

#[test]
fn instants_after_the_epoch() {
    assert_eq!(Timestamp::after_epoch(0, 0), Some(Timestamp::new(0, 0)));
    assert_eq!(
        Timestamp::after_epoch(1_678_881_600, 250),
        Some(Timestamp::new(1_678_881_600, 250))
    );
    assert_eq!(Timestamp::after_epoch(7, 2_000_000_001), Some(Timestamp::new(9, 1)));
    assert_eq!(
        Timestamp::after_epoch(i64::MAX as u64, 999_999_999),
        Some(Timestamp::new(i64::MAX, 999_999_999))
    );
    assert_eq!(Timestamp::after_epoch(i64::MAX as u64 + 1, 0), None);
    assert_eq!(Timestamp::after_epoch(i64::MAX as u64, 1_000_000_000), None);
    assert_eq!(Timestamp::after_epoch(u64::MAX, u32::MAX), None);
}

#[test]
fn instants_before_the_epoch() {
    assert_eq!(Timestamp::before_epoch(0, 0), Some(Timestamp::new(0, 0)));
    assert_eq!(Timestamp::before_epoch(5, 0), Some(Timestamp::new(-5, 0)));
    assert_eq!(Timestamp::before_epoch(5, 1), Some(Timestamp::new(-6, 999_999_999)));
    assert_eq!(Timestamp::before_epoch(0, 999_999_999), Some(Timestamp::new(-1, 1)));
    assert_eq!(Timestamp::before_epoch(1, 1_500_000_000), Some(Timestamp::new(-3, 500_000_000)));
    assert_eq!(
        Timestamp::before_epoch(i64::MAX as u64 + 1, 0),
        Some(Timestamp::new(i64::MIN, 0))
    );
    assert_eq!(Timestamp::before_epoch(i64::MAX as u64 + 1, 1), None);
    assert_eq!(Timestamp::before_epoch(u64::MAX, 0), None);
}
