//! Classifying the entries of a scan: which are left alone, which are entered,
//! which fail, and which are to be moved into which bucket.

use crate::age::{is_too_young, too_young, Timestamp};
use crate::bucket::{bucket_name_of, date_has_bucket, is_bucket_name, is_year_month_dir};
use crate::calendar::{in_calendar_range, local_year_month};
use crate::plan::{PlannedMove, PlannedMoveView};
use crate::stats::{FailReason, Outcome, SkipReason};
use vstd::prelude::*;

verus! {

/// Which timestamp of an entry decides its age and its bucket.
#[derive(Clone, Copy, Debug, PartialEq, Eq, Structural)]
pub enum TimeSource {
    /// The time of the last modification.
    Modified,
    /// The time of the last access.
    Accessed,
}

/// How a run goes through the directory.
#[derive(Clone, Copy, Debug, PartialEq, Eq, Structural)]
pub enum Mode {
    /// One entry after the other. Directories are never moved: they are
    /// entered where `recursive` is set and skipped where it is not.
    Sequential { recursive: bool },
    /// The entries of the root alone, directories moved like files, with at
    /// most `jobs` moves in flight at a time.
    Concurrent { jobs: usize },
}

/// What a run is configured to do. It does not change during the run.
#[derive(Debug)]
pub struct Config {
    /// The directory being organised, in which the buckets stand.
    pub root: String,
    /// Whether moves are only reported.
    pub dry_run: bool,
    /// The minimum age, in seconds, below which an entry is held back.
    pub min_age_secs: u64,
    pub time_source: TimeSource,
    pub mode: Mode,
}

/// What the file system tells about an entry. A timestamp that could not be
/// had is `None`.
#[derive(Clone, Copy, Debug)]
pub struct Metadata {
    pub is_dir: bool,
    pub modified: Option<Timestamp>,
    pub accessed: Option<Timestamp>,
}

/// An entry found by the scan: the directory that lists it, its name there,
/// and its metadata, `None` where they could not be read.
#[derive(Debug)]
pub struct Candidate {
    pub parent: String,
    pub name: String,
    pub metadata: Option<Metadata>,
}

/// What is settled about an entry before the calendar is asked.
#[derive(Clone, Copy, Debug, PartialEq, Eq, Structural)]
pub enum Screening {
    Skip(SkipReason),
    Fail(FailReason),
    /// The entry is a directory whose own entries are to be scanned.
    Descend,
    /// The entry is to be moved into the bucket of the month of this
    /// timestamp.
    Eligible(Timestamp),
}

/// What is to be done with an entry.
#[derive(Debug)]
pub enum Decision {
    Skip(SkipReason),
    Fail(FailReason),
    /// The entry is a directory whose own entries are to be scanned.
    Descend,
    /// The entry is to be moved, unless its destination exists.
    Move(PlannedMove),
}

/// A decision with its plan as plain sequences of characters.
pub enum DecisionView {
    Skip(SkipReason),
    Fail(FailReason),
    Descend,
    Move(PlannedMoveView),
}

impl View for Decision {
    type V = DecisionView;

    open spec fn view(&self) -> DecisionView {
        match self {
            Decision::Skip(reason) => DecisionView::Skip(*reason),
            Decision::Fail(reason) => DecisionView::Fail(*reason),
            Decision::Descend => DecisionView::Descend,
            Decision::Move(plan) => DecisionView::Move(plan@),
        }
    }
}

/// A bucket directory of a run: an entry of the root itself whose name has
/// the shape of a bucket name.
pub open spec fn is_bucket_entry(root: Seq<char>, parent: Seq<char>, name: Seq<char>) -> bool {
    is_bucket_name(name) && parent == root
}

/// The timestamp of `metadata` that `source` selects.
pub open spec fn selected_timestamp(source: TimeSource, metadata: Metadata) -> Option<Timestamp> {
    match source {
        TimeSource::Modified => metadata.modified,
        TimeSource::Accessed => metadata.accessed,
    }
}

/// Whether an entry with this metadata is a directory that the run does not
/// move.
pub open spec fn directory_is_kept(mode: Mode, metadata: Metadata) -> bool {
    metadata.is_dir && mode is Sequential
}

/// The rules of the scan in their order: a bucket directory is skipped and
/// never entered; an entry without metadata fails; a directory is entered,
/// skipped or treated like a file as the mode says; an entry without the
/// selected timestamp fails; an entry that is too young is skipped; what is
/// left is to be moved.
pub open spec fn screening_of(config: Config, now: Timestamp, candidate: Candidate) -> Screening {
    if is_bucket_entry(config.root@, candidate.parent@, candidate.name@) {
        Screening::Skip(SkipReason::Bucket)
    } else {
        match candidate.metadata {
            None => Screening::Fail(FailReason::Metadata),
            Some(metadata) => {
                if directory_is_kept(config.mode, metadata) {
                    if config.mode == (Mode::Sequential { recursive: true }) {
                        Screening::Descend
                    } else {
                        Screening::Skip(SkipReason::Directory)
                    }
                } else {
                    match selected_timestamp(config.time_source, metadata) {
                        None => Screening::Fail(FailReason::Timestamp),
                        Some(timestamp) => {
                            if is_too_young(now, timestamp, config.min_age_secs) {
                                Screening::Skip(SkipReason::TooYoung)
                            } else {
                                Screening::Eligible(timestamp)
                            }
                        },
                    }
                }
            },
        }
    }
}

/// The decision for an eligible entry once the local year and month of its
/// timestamp are known: a plan into the bucket of that month or, where
/// there is no date or the date has no bucket, a failure.
pub open spec fn dated_decision(
    root: Seq<char>,
    parent: Seq<char>,
    name: Seq<char>,
    date: Option<(i32, u32)>,
) -> DecisionView {
    match date {
        Some((year, month)) => {
            if date_has_bucket(year as int, month as int) {
                DecisionView::Move(
                    PlannedMoveView {
                        source_dir: parent,
                        file_name: name,
                        root,
                        bucket: bucket_name_of(year as int, month as int),
                    },
                )
            } else {
                DecisionView::Fail(FailReason::Calendar)
            }
        },
        None => DecisionView::Fail(FailReason::Calendar),
    }
}

/// The decision for an entry, given the local year and month that the
/// calendar answers for an eligible entry's timestamp.
pub open spec fn decision_of(
    config: Config,
    now: Timestamp,
    candidate: Candidate,
    date: Option<(i32, u32)>,
) -> DecisionView {
    match screening_of(config, now, candidate) {
        Screening::Skip(reason) => DecisionView::Skip(reason),
        Screening::Fail(reason) => DecisionView::Fail(reason),
        Screening::Descend => DecisionView::Descend,
        Screening::Eligible(_) => dated_decision(
            config.root@,
            candidate.parent@,
            candidate.name@,
            date,
        ),
    }
}

/// Tells whether the entry `name` of the directory `parent` is a bucket
/// directory of the run rooted at `root`.
pub fn is_bucket_dir(root: &String, parent: &String, name: &String) -> (b: bool)
    ensures
        b == is_bucket_entry(root@, parent@, name@),
{
    is_year_month_dir(name.as_str()) && *parent == *root
}

/// Applies the rules of the scan that need no calendar.
pub fn screen(config: &Config, now: &Timestamp, candidate: &Candidate) -> (s: Screening)
    ensures
        s == screening_of(*config, *now, *candidate),
{
    if is_bucket_dir(&config.root, &candidate.parent, &candidate.name) {
        return Screening::Skip(SkipReason::Bucket);
    }
    let metadata = match candidate.metadata {
        Some(metadata) => metadata,
        None => {
            return Screening::Fail(FailReason::Metadata);
        },
    };
    if metadata.is_dir {
        match config.mode {
            Mode::Sequential { recursive } => {
                if recursive {
                    return Screening::Descend;
                } else {
                    return Screening::Skip(SkipReason::Directory);
                }
            },
            Mode::Concurrent { .. } => {},
        }
    }
    let selected = match config.time_source {
        TimeSource::Modified => metadata.modified,
        TimeSource::Accessed => metadata.accessed,
    };
    match selected {
        None => Screening::Fail(FailReason::Timestamp),
        Some(timestamp) => {
            if too_young(now, &timestamp, config.min_age_secs) {
                Screening::Skip(SkipReason::TooYoung)
            } else {
                Screening::Eligible(timestamp)
            }
        },
    }
}

/// Decides what is to be done with an entry, given what the calendar
/// answered for its timestamp. `date` is read only where the entry is
/// eligible.
pub fn classify_dated(
    config: &Config,
    now: &Timestamp,
    candidate: Candidate,
    date: Option<(i32, u32)>,
) -> (d: Decision)
    ensures
        d@ == decision_of(*config, *now, candidate, date),
{
    match screen(config, now, &candidate) {
        Screening::Skip(reason) => Decision::Skip(reason),
        Screening::Fail(reason) => Decision::Fail(reason),
        Screening::Descend => Decision::Descend,
        Screening::Eligible(_) => {
            let Candidate { parent, name, metadata: _ } = candidate;
            match date {
                Some((year, month)) => {
                    let root = config.root.clone();
                    match PlannedMove::for_month(parent, name, root, year, month) {
                        Some(plan) => Decision::Move(plan),
                        None => Decision::Fail(FailReason::Calendar),
                    }
                },
                None => Decision::Fail(FailReason::Calendar),
            }
        },
    }
}

/// An answer that the calendar may give for the instant of `timestamp`: a
/// year with a month of the calendar or no date; and for an instant in the
/// calendar range a date whose year four digits write.
pub open spec fn is_calendar_answer(timestamp: Timestamp, date: Option<(i32, u32)>) -> bool {
    match date {
        Some((year, month)) => 1 <= month <= 12 && (in_calendar_range(
            timestamp.secs,
            timestamp.nanos,
        ) ==> 0 <= year <= 9999),
        None => !in_calendar_range(timestamp.secs, timestamp.nanos),
    }
}

/// Decides what is to be done with an entry. For an eligible entry the
/// calendar of the host is asked for the local year and month of its
/// timestamp, and the decision is the one that follows from its answer; for
/// every other entry the decision is settled without the calendar.
///
/// An eligible entry whose timestamp lies in the calendar range is always
/// planned, from its own place into a bucket of the root under its own name;
/// the time zone of the host decides only which bucket.
///
/// For an eligible entry the call may stop the program instead of returning:
/// the calendar library does so where it cannot tell the offset of the host's
/// time zone from UTC, which is where the zone data of the host give an
/// offset of a day or more or, on Windows, where the system does not tell
/// the zone rules of the year. This depends on the host and not on the
/// entry.
pub fn classify(config: &Config, now: &Timestamp, candidate: Candidate) -> (d: Decision)
    ensures
        match screening_of(*config, *now, candidate) {
            Screening::Eligible(timestamp) => exists|date: Option<(i32, u32)>|
                is_calendar_answer(timestamp, date) && d@ == #[trigger] decision_of(
                    *config,
                    *now,
                    candidate,
                    date,
                ),
            _ => d@ == decision_of(*config, *now, candidate, None),
        },
        match screening_of(*config, *now, candidate) {
            Screening::Eligible(timestamp) => in_calendar_range(timestamp.secs, timestamp.nanos)
                ==> (match d@ {
                DecisionView::Move(plan) => plan.source_dir == candidate.parent@ && plan.file_name
                    == candidate.name@ && plan.root == config.root@ && is_bucket_name(
                    plan.bucket,
                ),
                _ => false,
            }),
            _ => true,
        },
{
    let date = match screen(config, now, &candidate) {
        Screening::Eligible(timestamp) => local_year_month(timestamp.secs, timestamp.nanos),
        _ => None,
    };
    classify_dated(config, now, candidate, date)
}

impl Decision {
    /// The outcome that a decision settles by itself: a skip or a failure.
    /// Entering a directory counts nothing, and a move is counted when it
    /// has been tried.
    pub fn outcome(&self) -> (o: Option<Outcome>)
        ensures
            o == settled_outcome(self@),
    {
        match self {
            Decision::Skip(reason) => Some(Outcome::Skipped(*reason)),
            Decision::Fail(reason) => Some(Outcome::Failed(*reason)),
            Decision::Descend => None,
            Decision::Move(_) => None,
        }
    }
}

/// The outcome that a decision settles by itself.
pub open spec fn settled_outcome(decision: DecisionView) -> Option<Outcome> {
    match decision {
        DecisionView::Skip(reason) => Some(Outcome::Skipped(reason)),
        DecisionView::Fail(reason) => Some(Outcome::Failed(reason)),
        DecisionView::Descend => None,
        DecisionView::Move(_) => None,
    }
}

} // verus!
