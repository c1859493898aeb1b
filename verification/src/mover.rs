//! Carrying out one planned move, step by step.
//!
//! The caller performs each file-system operation that a step asks for and
//! reports whether it succeeded. Nothing is tried twice, and a failure ends
//! the move.

use crate::stats::{FailReason, Outcome};
use vstd::prelude::*;

verus! {

/// Where a move stands: the operation to perform next, or its outcome.
#[derive(Clone, Copy, Debug, PartialEq, Eq, Structural)]
pub enum Step {
    /// Create the bucket directory, with its parents, unless it exists.
    CreateBucket,
    /// Rename the entry to its place in the bucket.
    Rename,
    /// The move is over.
    Done(Outcome),
}

/// The first step of a move. A dry run is over before it touches anything
/// and counts as moved.
pub open spec fn first_step(dry_run: bool) -> Step {
    if dry_run {
        Step::Done(Outcome::Moved)
    } else {
        Step::CreateBucket
    }
}

/// The step that follows `step` once its operation has succeeded or failed.
/// A move that is over stays as it is.
pub open spec fn step_after(step: Step, succeeded: bool) -> Step {
    match step {
        Step::CreateBucket => if succeeded {
            Step::Rename
        } else {
            Step::Done(Outcome::Failed(FailReason::CreateDir))
        },
        Step::Rename => if succeeded {
            Step::Done(Outcome::Moved)
        } else {
            Step::Done(Outcome::Failed(FailReason::Rename))
        },
        Step::Done(outcome) => Step::Done(outcome),
    }
}

/// How a move ends, given whether creating the bucket and renaming the
/// entry succeed when they are tried.
pub open spec fn move_outcome(dry_run: bool, created: bool, renamed: bool) -> Outcome {
    if dry_run {
        Outcome::Moved
    } else if !created {
        Outcome::Failed(FailReason::CreateDir)
    } else if !renamed {
        Outcome::Failed(FailReason::Rename)
    } else {
        Outcome::Moved
    }
}

/// How many file-system operations a move performs: none in a dry run, the
/// creation of the bucket alone where that fails, else the creation and the
/// rename.
pub open spec fn operations_tried(dry_run: bool, created: bool) -> nat {
    if dry_run {
        0
    } else if !created {
        1
    } else {
        2
    }
}

/// Begins a move.
pub fn begin(dry_run: bool) -> (step: Step)
    ensures
        step == first_step(dry_run),
{
    if dry_run {
        Step::Done(Outcome::Moved)
    } else {
        Step::CreateBucket
    }
}

/// Goes on with a move after the operation of `step` was performed.
pub fn advance(step: Step, succeeded: bool) -> (next: Step)
    ensures
        next == step_after(step, succeeded),
{
    match step {
        Step::CreateBucket => if succeeded {
            Step::Rename
        } else {
            Step::Done(Outcome::Failed(FailReason::CreateDir))
        },
        Step::Rename => if succeeded {
            Step::Done(Outcome::Moved)
        } else {
            Step::Done(Outcome::Failed(FailReason::Rename))
        },
        Step::Done(outcome) => Step::Done(outcome),
    }
}

/// The steps of a move, followed from the first: after as many operations as
/// `operations_tried` counts the move is over with the outcome that
/// `move_outcome` gives, and it is not over before.
pub proof fn lemma_steps_reach_outcome(dry_run: bool, created: bool, renamed: bool)
    ensures
        operations_tried(dry_run, created) == 0 ==> first_step(dry_run) == Step::Done(
            move_outcome(dry_run, created, renamed),
        ),
        operations_tried(dry_run, created) == 1 ==> first_step(dry_run) == Step::CreateBucket
            && step_after(first_step(dry_run), created) == Step::Done(
            move_outcome(dry_run, created, renamed),
        ),
        operations_tried(dry_run, created) == 2 ==> first_step(dry_run) == Step::CreateBucket
            && step_after(first_step(dry_run), created) == Step::Rename && step_after(
            Step::Rename,
            renamed,
        ) == Step::Done(move_outcome(dry_run, created, renamed)),
{
}

} // verus!
