use chronoban::age::Timestamp;
use chronoban::scan::{
    classify, classify_dated, is_bucket_dir, screen, Candidate, Config, Decision, Metadata, Mode,
    Screening, TimeSource,
};
use chronoban::stats::{FailReason, Outcome, SkipReason};

const NOW: i64 = 1_700_000_000;
// 2023-03-15 12:00:00 UTC
const MID_MARCH_2023: i64 = 1_678_881_600;

fn config(mode: Mode) -> Config {
    Config {
        root: String::from("/base"),
        dry_run: false,
        min_age_secs: 0,
        time_source: TimeSource::Modified,
        mode,
    }
}

fn concurrent() -> Config {
    config(Mode::Concurrent { jobs: 16 })
}

fn file(parent: &str, name: &str, modified: i64) -> Candidate {
    Candidate {
        parent: String::from(parent),
        name: String::from(name),
        metadata: Some(Metadata {
            is_dir: false,
            modified: Some(Timestamp::new(modified, 0)),
            accessed: Some(Timestamp::new(modified + 86_400 * 60, 0)),
        }),
    }
}

fn directory(parent: &str, name: &str, modified: i64) -> Candidate {
    Candidate {
        parent: String::from(parent),
        name: String::from(name),
        metadata: Some(Metadata {
            is_dir: true,
            modified: Some(Timestamp::new(modified, 0)),
            accessed: Some(Timestamp::new(modified, 0)),
        }),
    }
}

fn now() -> Timestamp {
    Timestamp::new(NOW, 0)
}

fn expect_move(decision: Decision, source_dir: &str, file_name: &str, root: &str, bucket: &str) {
    match decision {
        Decision::Move(plan) => {
            assert_eq!(plan.source_dir(), source_dir);
            assert_eq!(plan.file_name(), file_name);
            assert_eq!(plan.root(), root);
            assert_eq!(plan.bucket(), bucket);
        }
        other => panic!("expected a move, got {:?}", other),
    }
}

fn expect_skip(decision: Decision, reason: SkipReason) {
    match decision {
        Decision::Skip(r) => assert_eq!(r, reason),
        other => panic!("expected a skip, got {:?}", other),
    }
}

fn expect_fail(decision: Decision, reason: FailReason) {
    match decision {
        Decision::Fail(r) => assert_eq!(r, reason),
        other => panic!("expected a failure, got {:?}", other),
    }
}

#[test]
fn bucket_directory_of_the_root_is_recognised() {
    let root = String::from("/base");
    assert!(is_bucket_dir(&root, &String::from("/base"), &String::from("2023-03")));
    assert!(!is_bucket_dir(&root, &String::from("/base/sub"), &String::from("2023-03")));
    assert!(!is_bucket_dir(&root, &String::from("/base"), &String::from("2023-3")));
    assert!(!is_bucket_dir(&root, &String::from("/base"), &String::from("a.txt")));
}

#[test]
fn file_is_planned_into_the_bucket_of_its_month() {
    let d = classify_dated(
        &concurrent(),
        &now(),
        file("/base", "a.txt", MID_MARCH_2023),
        Some((2023, 3)),
    );
    expect_move(d, "/base", "a.txt", "/base", "2023-03");
}

#[test]
fn month_and_year_are_padded_with_zeros() {
    let d = classify_dated(&concurrent(), &now(), file("/base", "old", 0), Some((987, 1)));
    expect_move(d, "/base", "old", "/base", "0987-01");
}

#[test]
fn bucket_directory_is_skipped_in_every_mode() {
    for mode in [
        Mode::Concurrent { jobs: 4 },
        Mode::Sequential { recursive: false },
        Mode::Sequential { recursive: true },
    ] {
        let d = classify_dated(
            &config(mode),
            &now(),
            directory("/base", "2023-03", MID_MARCH_2023),
            Some((2023, 3)),
        );
        expect_skip(d, SkipReason::Bucket);
    }
}

#[test]
fn bucket_directory_is_skipped_before_its_metadata_are_read() {
    let candidate = Candidate {
        parent: String::from("/base"),
        name: String::from("1999-12"),
        metadata: None,
    };
    expect_skip(classify_dated(&concurrent(), &now(), candidate, None), SkipReason::Bucket);
}

#[test]
fn entry_with_a_bucket_name_is_skipped_even_if_it_is_a_file() {
    let d = classify_dated(
        &concurrent(),
        &now(),
        file("/base", "2023-03", MID_MARCH_2023),
        Some((2023, 3)),
    );
    expect_skip(d, SkipReason::Bucket);
}

#[test]
fn bucket_name_below_the_root_is_no_bucket() {
    let recursive = config(Mode::Sequential { recursive: true });
    let d = classify_dated(
        &recursive,
        &now(),
        directory("/base/sub", "2023-03", MID_MARCH_2023),
        Some((2023, 3)),
    );
    assert!(matches!(d, Decision::Descend));
    let d = classify_dated(
        &recursive,
        &now(),
        file("/base/sub", "2023-03", MID_MARCH_2023),
        Some((2023, 3)),
    );
    expect_move(d, "/base/sub", "2023-03", "/base", "2023-03");
}

#[test]
fn unreadable_metadata_is_a_failure() {
    let candidate = Candidate {
        parent: String::from("/base"),
        name: String::from("a.txt"),
        metadata: None,
    };
    expect_fail(
        classify_dated(&concurrent(), &now(), candidate, Some((2023, 3))),
        FailReason::Metadata,
    );
}

#[test]
fn missing_timestamp_is_a_failure() {
    let candidate = Candidate {
        parent: String::from("/base"),
        name: String::from("a.txt"),
        metadata: Some(Metadata {
            is_dir: false,
            modified: None,
            accessed: Some(Timestamp::new(MID_MARCH_2023, 0)),
        }),
    };
    expect_fail(
        classify_dated(&concurrent(), &now(), candidate, Some((2023, 3))),
        FailReason::Timestamp,
    );
}

#[test]
fn time_source_selects_the_timestamp() {
    let mut by_access = concurrent();
    by_access.time_source = TimeSource::Accessed;
    by_access.min_age_secs = 86_400;
    let candidate = Candidate {
        parent: String::from("/base"),
        name: String::from("a.txt"),
        metadata: Some(Metadata {
            is_dir: false,
            modified: Some(Timestamp::new(MID_MARCH_2023, 0)),
            accessed: Some(Timestamp::new(NOW - 10, 0)),
        }),
    };
    assert_eq!(
        screen(&by_access, &now(), &candidate),
        Screening::Skip(SkipReason::TooYoung)
    );
    let mut by_modification = concurrent();
    by_modification.min_age_secs = 86_400;
    assert_eq!(
        screen(&by_modification, &now(), &candidate),
        Screening::Eligible(Timestamp::new(MID_MARCH_2023, 0))
    );
    let without_access = Candidate {
        parent: String::from("/base"),
        name: String::from("a.txt"),
        metadata: Some(Metadata {
            is_dir: false,
            modified: Some(Timestamp::new(MID_MARCH_2023, 0)),
            accessed: None,
        }),
    };
    assert_eq!(
        screen(&by_access, &now(), &without_access),
        Screening::Fail(FailReason::Timestamp)
    );
}

#[test]
fn young_file_is_skipped() {
    let mut cfg = concurrent();
    cfg.min_age_secs = 30 * 86_400;
    let d = classify_dated(
        &cfg,
        &now(),
        file("/base", "new.txt", NOW - 10 * 86_400),
        Some((2023, 11)),
    );
    expect_skip(d, SkipReason::TooYoung);
}

#[test]
fn file_at_the_threshold_is_planned() {
    let mut cfg = concurrent();
    cfg.min_age_secs = 30 * 86_400;
    let d = classify_dated(
        &cfg,
        &now(),
        file("/base", "edge.txt", NOW - 30 * 86_400),
        Some((2023, 10)),
    );
    expect_move(d, "/base", "edge.txt", "/base", "2023-10");
    let d = classify_dated(
        &cfg,
        &now(),
        file("/base", "edge.txt", NOW - 30 * 86_400 + 1),
        Some((2023, 10)),
    );
    expect_skip(d, SkipReason::TooYoung);
}

#[test]
fn file_from_the_future_is_planned() {
    let mut cfg = concurrent();
    cfg.min_age_secs = 30 * 86_400;
    let d = classify_dated(
        &cfg,
        &now(),
        file("/base", "ahead.txt", NOW + 86_400),
        Some((2023, 11)),
    );
    expect_move(d, "/base", "ahead.txt", "/base", "2023-11");
}

#[test]
fn directory_is_skipped_when_not_recursive() {
    let d = classify_dated(
        &config(Mode::Sequential { recursive: false }),
        &now(),
        directory("/base", "photos", MID_MARCH_2023),
        Some((2023, 3)),
    );
    expect_skip(d, SkipReason::Directory);
}

#[test]
fn directory_is_entered_when_recursive() {
    let d = classify_dated(
        &config(Mode::Sequential { recursive: true }),
        &now(),
        directory("/base", "photos", MID_MARCH_2023),
        Some((2023, 3)),
    );
    assert!(matches!(d, Decision::Descend));
    assert_eq!(d.outcome(), None);
}

#[test]
fn directory_is_entered_whatever_its_age() {
    let mut cfg = config(Mode::Sequential { recursive: true });
    cfg.min_age_secs = 30 * 86_400;
    let candidate = Candidate {
        parent: String::from("/base"),
        name: String::from("photos"),
        metadata: Some(Metadata { is_dir: true, modified: None, accessed: None }),
    };
    assert_eq!(screen(&cfg, &now(), &candidate), Screening::Descend);
}

#[test]
fn directory_is_moved_like_a_file_in_concurrent_mode() {
    let d = classify_dated(
        &concurrent(),
        &now(),
        directory("/base", "photos", MID_MARCH_2023),
        Some((2023, 3)),
    );
    expect_move(d, "/base", "photos", "/base", "2023-03");
}

#[test]
fn date_without_bucket_is_a_failure() {
    for date in [None, Some((10_000, 1)), Some((-1, 12)), Some((2023, 0)), Some((2023, 13))] {
        let d = classify_dated(&concurrent(), &now(), file("/base", "a.txt", 0), date);
        expect_fail(d, FailReason::Calendar);
    }
}

#[test]
fn decisions_settle_skips_and_failures() {
    assert_eq!(
        Decision::Skip(SkipReason::TooYoung).outcome(),
        Some(Outcome::Skipped(SkipReason::TooYoung))
    );
    assert_eq!(
        Decision::Fail(FailReason::Metadata).outcome(),
        Some(Outcome::Failed(FailReason::Metadata))
    );
    assert_eq!(Decision::Descend.outcome(), None);
    let planned = classify_dated(
        &concurrent(),
        &now(),
        file("/base", "a.txt", MID_MARCH_2023),
        Some((2023, 3)),
    );
    assert_eq!(planned.outcome(), None);
}

#[test]
fn calendar_of_the_host_gives_the_month() {
    // Noon UTC in the middle of a month is in that month in every time zone.
    let d = classify(&concurrent(), &now(), file("/base", "a.txt", MID_MARCH_2023));
    expect_move(d, "/base", "a.txt", "/base", "2023-03");
    // 2000-07-15 12:00:00 UTC
    let d = classify(&concurrent(), &now(), file("/base", "b.txt", 963_662_400));
    expect_move(d, "/base", "b.txt", "/base", "2000-07");
    // 1969-12-15 12:00:00 UTC, before the epoch
    let d = classify(&concurrent(), &now(), file("/base", "c.txt", -1_425_600));
    expect_move(d, "/base", "c.txt", "/base", "1969-12");
}

#[test]
fn instants_at_the_ends_of_the_calendar_range_are_planned() {
    // One day after the beginning of the year 0, in UTC.
    let d = classify(&concurrent(), &now(), file("/base", "first", -62_167_132_800));
    expect_move(d, "/base", "first", "/base", "0000-01");
    // One day before the end of the year 9999, in UTC, at its last nanosecond.
    let last = Candidate {
        parent: String::from("/base"),
        name: String::from("last"),
        metadata: Some(Metadata {
            is_dir: false,
            modified: Some(Timestamp::new(253_402_214_399, 999_999_999)),
            accessed: None,
        }),
    };
    expect_move(classify(&concurrent(), &now(), last), "/base", "last", "/base", "9999-12");
}

#[test]
fn eligible_entry_in_the_calendar_range_is_always_planned() {
    let mut secs: i64 = -62_167_132_800;
    while secs <= 253_402_214_399 {
        match classify(&concurrent(), &now(), file("/base/sub", "a.txt", secs)) {
            Decision::Move(plan) => {
                assert_eq!(plan.source_dir(), "/base/sub");
                assert_eq!(plan.file_name(), "a.txt");
                assert_eq!(plan.root(), "/base");
                assert!(chronoban::bucket::is_year_month_dir(plan.bucket()));
            }
            other => panic!("expected a move at {}, got {:?}", secs, other),
        }
        secs += 1_234_567_891;
    }
}

#[test]
fn nanoseconds_of_a_second_or_more_have_no_month() {
    let odd = Candidate {
        parent: String::from("/base"),
        name: String::from("odd"),
        metadata: Some(Metadata {
            is_dir: false,
            modified: Some(Timestamp::new(MID_MARCH_2023, 2_000_000_000)),
            accessed: None,
        }),
    };
    expect_fail(classify(&concurrent(), &now(), odd), FailReason::Calendar);
}

#[test]
fn instant_outside_the_calendar_is_a_failure() {
    let d = classify(&concurrent(), &now(), file("/base", "a.txt", i64::MIN));
    expect_fail(d, FailReason::Calendar);
    // 12000-01-01 00:00:00 UTC: no year around it is written with four digits.
    let d = classify(&concurrent(), &now(), file("/base", "a.txt", 316_516_204_800));
    expect_fail(d, FailReason::Calendar);
    // A year before the year 0.
    let d = classify(&concurrent(), &now(), file("/base", "a.txt", -63_000_000_000));
    expect_fail(d, FailReason::Calendar);
}

#[test]
fn classify_asks_no_calendar_for_settled_entries() {
    let mut cfg = concurrent();
    cfg.min_age_secs = 30 * 86_400;
    expect_skip(
        classify(&cfg, &now(), file("/base", "new.txt", NOW - 10 * 86_400)),
        SkipReason::TooYoung,
    );
    expect_skip(
        classify(&cfg, &now(), directory("/base", "2023-03", MID_MARCH_2023)),
        SkipReason::Bucket,
    );
    let unreadable = Candidate {
        parent: String::from("/base"),
        name: String::from("a.txt"),
        metadata: None,
    };
    expect_fail(classify(&cfg, &now(), unreadable), FailReason::Metadata);
}
