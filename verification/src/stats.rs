//! Outcomes of single entries and the counters of a run.

use vstd::multiset::Multiset;
use vstd::prelude::*;
use vstd::seq_lib::to_multiset_build;

verus! {

/// Why an entry was left where it is without this being a failure.
#[derive(Clone, Copy, Debug, PartialEq, Eq, Structural)]
pub enum SkipReason {
    /// The entry is a bucket directory of the directory being organised.
    Bucket,
    /// The entry is a directory and directories are not entered.
    Directory,
    /// The entry is younger than the minimum age.
    TooYoung,
    /// Something already exists at the destination.
    Collision,
}

/// Why an entry could not be handled.
#[derive(Clone, Copy, Debug, PartialEq, Eq, Structural)]
pub enum FailReason {
    /// The directory entry itself could not be read.
    Entry,
    /// The metadata of the entry could not be read.
    Metadata,
    /// The metadata does not give the timestamp that was asked for.
    Timestamp,
    /// The timestamp falls in no month that a bucket name can write.
    Calendar,
    /// The bucket directory could not be created.
    CreateDir,
    /// The entry could not be renamed into its bucket.
    Rename,
    /// The unit of work that carried the move did not run to its end.
    Task,
}

/// What became of one entry.
#[derive(Clone, Copy, Debug, PartialEq, Eq, Structural)]
pub enum Outcome {
    Moved,
    Skipped(SkipReason),
    Failed(FailReason),
}

/// The three counters of a run as natural numbers.
pub struct Tally {
    pub moved: nat,
    pub skipped: nat,
    pub errors: nat,
}

impl Tally {
    /// No outcome counted yet.
    pub open spec fn zero() -> Tally {
        Tally { moved: 0, skipped: 0, errors: 0 }
    }

    /// The counters after one more outcome: exactly one of them is one
    /// higher.
    pub open spec fn record(self, outcome: Outcome) -> Tally {
        match outcome {
            Outcome::Moved => Tally { moved: self.moved + 1, ..self },
            Outcome::Skipped(_) => Tally { skipped: self.skipped + 1, ..self },
            Outcome::Failed(_) => Tally { errors: self.errors + 1, ..self },
        }
    }

    /// The number of outcomes counted.
    pub open spec fn total(self) -> nat {
        self.moved + self.skipped + self.errors
    }

    /// The counter that `outcome` raises.
    pub open spec fn counter_for(self, outcome: Outcome) -> nat {
        match outcome {
            Outcome::Moved => self.moved,
            Outcome::Skipped(_) => self.skipped,
            Outcome::Failed(_) => self.errors,
        }
    }
}

/// The counters after the outcomes of `outcomes`, taken in order.
pub open spec fn tally_of(outcomes: Seq<Outcome>) -> Tally
    decreases outcomes.len(),
{
    if outcomes.len() == 0 {
        Tally::zero()
    } else {
        tally_of(outcomes.drop_last()).record(outcomes.last())
    }
}

/// The counters of a run: how many entries were moved, were skipped, and
/// failed.
#[derive(Clone, Copy, Debug)]
pub struct Stats {
    moved: usize,
    skipped: usize,
    errors: usize,
}

impl View for Stats {
    type V = Tally;

    closed spec fn view(&self) -> Tally {
        Tally { moved: self.moved as nat, skipped: self.skipped as nat, errors: self.errors as nat }
    }
}

impl Stats {
    /// Counters that have counted nothing.
    pub fn new() -> (s: Stats)
        ensures
            s@ == Tally::zero(),
    {
        Stats { moved: 0, skipped: 0, errors: 0 }
    }

    /// Whether the counter that `outcome` raises can still be raised.
    pub fn has_room_for(&self, outcome: Outcome) -> (b: bool)
        ensures
            b == (self@.counter_for(outcome) < usize::MAX),
    {
        match outcome {
            Outcome::Moved => self.moved < usize::MAX,
            Outcome::Skipped(_) => self.skipped < usize::MAX,
            Outcome::Failed(_) => self.errors < usize::MAX,
        }
    }

    /// Counts one outcome: the counter of its kind rises by one and the
    /// other two stay.
    pub fn record(&mut self, outcome: Outcome)
        requires
            old(self)@.counter_for(outcome) < usize::MAX,
        ensures
            final(self)@ == old(self)@.record(outcome),
    {
        match outcome {
            Outcome::Moved => {
                self.moved = self.moved + 1;
            },
            Outcome::Skipped(_) => {
                self.skipped = self.skipped + 1;
            },
            Outcome::Failed(_) => {
                self.errors = self.errors + 1;
            },
        }
    }

    /// The number of entries moved (in a dry run: that would have been).
    pub fn moved(&self) -> (n: usize)
        ensures
            n == self@.moved,
    {
        self.moved
    }

    /// The number of entries skipped.
    pub fn skipped(&self) -> (n: usize)
        ensures
            n == self@.skipped,
    {
        self.skipped
    }

    /// The number of entries that failed.
    pub fn errors(&self) -> (n: usize)
        ensures
            n == self@.errors,
    {
        self.errors
    }

    /// The counters of a whole list of outcomes.
    pub fn tally(outcomes: &Vec<Outcome>) -> (s: Stats)
        ensures
            s@ == tally_of(outcomes@),
    {
        let mut s = Stats::new();
        let mut i: usize = 0;
        while i < outcomes.len()
            invariant
                i <= outcomes.len(),
                s@ == tally_of(outcomes@.take(i as int)),
                s@.total() == i,
            decreases outcomes.len() - i,
        {
            let outcome = outcomes[i];
            proof {
                let next = outcomes@.take(i + 1);
                assert(next.drop_last() =~= outcomes@.take(i as int));
                assert(next.last() == outcome);
            }
            s.record(outcome);
            i = i + 1;
        }
        assert(outcomes@.take(outcomes.len() as int) =~= outcomes@);
        s
    }
}

/// Every outcome raises exactly one counter, so the counters add up to the
/// number of outcomes.
pub proof fn lemma_tally_total(outcomes: Seq<Outcome>)
    ensures
        tally_of(outcomes).total() == outcomes.len(),
    decreases outcomes.len(),
{
    if outcomes.len() > 0 {
        lemma_tally_total(outcomes.drop_last());
    }
}

/// The counters as they follow from how often each outcome occurs, whatever
/// the order.
pub open spec fn tally_of_counts(counts: Multiset<Outcome>) -> Tally {
    Tally {
        moved: counts.count(Outcome::Moved),
        skipped: counts.count(Outcome::Skipped(SkipReason::Bucket)) + counts.count(
            Outcome::Skipped(SkipReason::Directory),
        ) + counts.count(Outcome::Skipped(SkipReason::TooYoung)) + counts.count(
            Outcome::Skipped(SkipReason::Collision),
        ),
        errors: counts.count(Outcome::Failed(FailReason::Entry)) + counts.count(
            Outcome::Failed(FailReason::Metadata),
        ) + counts.count(Outcome::Failed(FailReason::Timestamp)) + counts.count(
            Outcome::Failed(FailReason::Calendar),
        ) + counts.count(Outcome::Failed(FailReason::CreateDir)) + counts.count(
            Outcome::Failed(FailReason::Rename),
        ) + counts.count(Outcome::Failed(FailReason::Task)),
    }
}

/// The counters of a sequence of outcomes depend only on how often each
/// outcome occurs in it.
pub proof fn lemma_tally_counts(outcomes: Seq<Outcome>)
    ensures
        tally_of(outcomes) == tally_of_counts(outcomes.to_multiset()),
    decreases outcomes.len(),
{
    broadcast use vstd::multiset::group_multiset_axioms;

    if outcomes.len() == 0 {
        outcomes.to_multiset_ensures();
        assert(outcomes.to_multiset().len() == 0);
        assert(outcomes.to_multiset() =~= Multiset::<Outcome>::empty());
    } else {
        let init = outcomes.drop_last();
        let last = outcomes.last();
        lemma_tally_counts(init);
        assert(outcomes =~= init.push(last));
        to_multiset_build(init, last);
    }
}

/// Two runs that end their entries with the same outcomes, in whatever order
/// the outcomes come in, report the same counters. A run with several moves
/// in flight, whose moves finish in an order of their own, therefore counts
/// what the run that moves one entry after the other counts.
pub proof fn lemma_counters_ignore_order(first: Seq<Outcome>, second: Seq<Outcome>)
    requires
        first.to_multiset() == second.to_multiset(),
    ensures
        tally_of(first) == tally_of(second),
{
    lemma_tally_counts(first);
    lemma_tally_counts(second);
}

} // verus!
