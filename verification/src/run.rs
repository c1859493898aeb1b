//! A run as a whole: what becomes of each entry, given what the file system
//! and the calendar answer, and what holds of every run.

use crate::age::Timestamp;
use crate::bucket::{bucket_name_of, date_has_bucket, is_bucket_name};
use crate::mover::{move_outcome, operations_tried};
use crate::plan::PlannedMoveView;
use crate::scan::{decision_of, settled_outcome, Candidate, Config, DecisionView};
use crate::stats::{lemma_tally_total, tally_of, Outcome, SkipReason, Tally};
use vstd::prelude::*;

verus! {

/// What the calendar and the file system answer while one entry is handled.
/// An answer that is never asked for is never read.
pub struct Replies {
    /// The local year and month of the timestamp of the entry.
    pub date: Option<(i32, u32)>,
    /// Whether something exists at the destination.
    pub destination_exists: bool,
    /// Whether the bucket directory can be created.
    pub created: bool,
    /// Whether the entry can be renamed.
    pub renamed: bool,
}

/// An entry together with the answers given while it is handled.
pub struct Observed {
    pub candidate: Candidate,
    pub replies: Replies,
}

/// How a planned move ends: skipped where its destination exists, else as
/// the steps of the move end.
pub open spec fn plan_outcome(dry_run: bool, replies: Replies) -> Outcome {
    if replies.destination_exists {
        Outcome::Skipped(SkipReason::Collision)
    } else {
        move_outcome(dry_run, replies.created, replies.renamed)
    }
}

/// The outcome that is counted for an entry; none for a directory that is
/// entered.
pub open spec fn entry_outcome(config: Config, now: Timestamp, observed: Observed) -> Option<
    Outcome,
> {
    match decision_of(config, now, observed.candidate, observed.replies.date) {
        DecisionView::Move(_) => Some(plan_outcome(config.dry_run, observed.replies)),
        decision => settled_outcome(decision),
    }
}

/// The number of operations by which handling an entry tries to change the
/// file system.
pub open spec fn entry_operations(config: Config, now: Timestamp, observed: Observed) -> nat {
    match decision_of(config, now, observed.candidate, observed.replies.date) {
        DecisionView::Move(_) => if observed.replies.destination_exists {
            0
        } else {
            operations_tried(config.dry_run, observed.replies.created)
        },
        _ => 0,
    }
}

/// The move that handling an entry has carried out, if it has carried out
/// one: the entry was planned, its destination was free, the run was no dry
/// run, and both operations succeeded.
pub open spec fn entry_relocation(config: Config, now: Timestamp, observed: Observed) -> Option<
    PlannedMoveView,
> {
    match decision_of(config, now, observed.candidate, observed.replies.date) {
        DecisionView::Move(plan) => if !observed.replies.destination_exists && !config.dry_run
            && observed.replies.created && observed.replies.renamed {
            Some(plan)
        } else {
            None
        },
        _ => None,
    }
}

/// The outcomes of a run over `entries`, in the order of the entries.
pub open spec fn run_outcomes(config: Config, now: Timestamp, entries: Seq<Observed>) -> Seq<
    Outcome,
>
    decreases entries.len(),
{
    if entries.len() == 0 {
        Seq::empty()
    } else {
        let before = run_outcomes(config, now, entries.drop_last());
        match entry_outcome(config, now, entries.last()) {
            Some(outcome) => before.push(outcome),
            None => before,
        }
    }
}

/// The number of operations by which a run over `entries` tries to change
/// the file system.
pub open spec fn run_operations(config: Config, now: Timestamp, entries: Seq<Observed>) -> nat
    decreases entries.len(),
{
    if entries.len() == 0 {
        0
    } else {
        run_operations(config, now, entries.drop_last()) + entry_operations(
            config,
            now,
            entries.last(),
        )
    }
}

/// The counters that a run over `entries` reports.
pub open spec fn run_tally(config: Config, now: Timestamp, entries: Seq<Observed>) -> Tally {
    tally_of(run_outcomes(config, now, entries))
}

/// Two configurations that differ at most in whether the run is a dry run.
pub open spec fn same_but_dry_run(a: Config, b: Config) -> bool {
    &&& a.root@ == b.root@
    &&& a.min_age_secs == b.min_age_secs
    &&& a.time_source == b.time_source
    &&& a.mode == b.mode
}

/// Two entries that are the same entry with the same answers from the
/// calendar and about the destination.
pub open spec fn same_but_operations(a: Observed, b: Observed) -> bool {
    &&& a.candidate.parent@ == b.candidate.parent@
    &&& a.candidate.name@ == b.candidate.name@
    &&& a.candidate.metadata == b.candidate.metadata
    &&& a.replies.date == b.replies.date
    &&& a.replies.destination_exists == b.replies.destination_exists
}

/// In a run that is no dry run an entry is either moved or left: where it
/// was relocated, it went from its own place into the bucket of the month
/// of its timestamp under its own name, and it counts as moved; where it was
/// not, it does not count as moved. It never counts twice.
pub proof fn lemma_moved_or_left(config: Config, now: Timestamp, observed: Observed)
    requires
        !config.dry_run,
    ensures
        match entry_relocation(config, now, observed) {
            Some(place) => {
                &&& entry_outcome(config, now, observed) == Some(Outcome::Moved)
                &&& place.source_dir == observed.candidate.parent@
                &&& place.file_name == observed.candidate.name@
                &&& place.root == config.root@
                &&& is_bucket_name(place.bucket)
                &&& match observed.replies.date {
                    Some((year, month)) => date_has_bucket(year as int, month as int)
                        && place.bucket == bucket_name_of(year as int, month as int),
                    None => false,
                }
            },
            None => entry_outcome(config, now, observed) != Some(Outcome::Moved),
        },
        match entry_outcome(config, now, observed) {
            Some(outcome) => forall|tally: Tally| #[trigger]
                tally.record(outcome).total() == tally.total() + 1,
            None => decision_of(config, now, observed.candidate, observed.replies.date)
                == DecisionView::Descend,
        },
{
}

/// Where something exists at the destination of an entry, the entry is
/// skipped and no operation is tried: nothing is overwritten.
pub proof fn lemma_collision_is_skip(config: Config, now: Timestamp, observed: Observed)
    requires
        decision_of(config, now, observed.candidate, observed.replies.date) is Move,
        observed.replies.destination_exists,
    ensures
        entry_outcome(config, now, observed) == Some(Outcome::Skipped(SkipReason::Collision)),
        entry_operations(config, now, observed) == 0,
        entry_relocation(config, now, observed) is None,
{
}

/// A dry run tries no operation on the file system.
pub proof fn lemma_dry_run_touches_nothing(config: Config, now: Timestamp, entries: Seq<Observed>)
    requires
        config.dry_run,
    ensures
        run_operations(config, now, entries) == 0,
    decreases entries.len(),
{
    if entries.len() > 0 {
        lemma_dry_run_touches_nothing(config, now, entries.drop_last());
    }
}

/// A dry run reports the counters of the run that it stands for: the run
/// over the same entries, with the same answers from the calendar and about
/// the destinations, in which creating the buckets and renaming the entries
/// succeed.
pub proof fn lemma_dry_run_counts_alike(
    dry: Config,
    actual: Config,
    now: Timestamp,
    dry_entries: Seq<Observed>,
    actual_entries: Seq<Observed>,
)
    requires
        dry.dry_run,
        !actual.dry_run,
        same_but_dry_run(dry, actual),
        dry_entries.len() == actual_entries.len(),
        forall|i: int|
            0 <= i < dry_entries.len() ==> same_but_operations(
                #[trigger] dry_entries[i],
                actual_entries[i],
            ),
        forall|i: int|
            0 <= i < actual_entries.len() ==> (#[trigger] actual_entries[i]).replies.created
                && actual_entries[i].replies.renamed,
    ensures
        run_outcomes(dry, now, dry_entries) == run_outcomes(actual, now, actual_entries),
        run_tally(dry, now, dry_entries) == run_tally(actual, now, actual_entries),
    decreases dry_entries.len(),
{
    if dry_entries.len() > 0 {
        lemma_dry_run_counts_alike(
            dry,
            actual,
            now,
            dry_entries.drop_last(),
            actual_entries.drop_last(),
        );
        assert(same_but_operations(dry_entries.last(), actual_entries.last()));
        assert(actual_entries.last().replies.created && actual_entries.last().replies.renamed);
    }
}

/// A run that follows a run leaves alone what the first has moved: the
/// bucket into which an entry was relocated is, as an entry of the root,
/// skipped by every later run on that root, whatever its metadata, mode and
/// clock, and so it is neither entered nor moved.
pub proof fn lemma_later_run_skips_bucket(
    config: Config,
    now: Timestamp,
    observed: Observed,
    later: Config,
    later_now: Timestamp,
    bucket_dir: Observed,
)
    requires
        entry_relocation(config, now, observed) is Some,
        later.root@ == config.root@,
        bucket_dir.candidate.parent@ == entry_relocation(config, now, observed).unwrap().root,
        bucket_dir.candidate.name@ == entry_relocation(config, now, observed).unwrap().bucket,
    ensures
        decision_of(later, later_now, bucket_dir.candidate, bucket_dir.replies.date)
            == DecisionView::Skip(SkipReason::Bucket),
        entry_outcome(later, later_now, bucket_dir) == Some(
            Outcome::Skipped(SkipReason::Bucket),
        ),
        entry_operations(later, later_now, bucket_dir) == 0,
{
}

/// Every entry of a run is counted at most once, and exactly once unless it
/// is a directory that is entered: the counters add up to the number of
/// outcomes.
pub proof fn lemma_counted_once(config: Config, now: Timestamp, entries: Seq<Observed>)
    ensures
        run_tally(config, now, entries).total() == run_outcomes(config, now, entries).len(),
        run_outcomes(config, now, entries).len() <= entries.len(),
    decreases entries.len(),
{
    lemma_tally_total(run_outcomes(config, now, entries));
    if entries.len() > 0 {
        lemma_counted_once(config, now, entries.drop_last());
    }
}

} // verus!
