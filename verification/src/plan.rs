//! Planned moves: where an entry is and into which bucket it goes.

use crate::bucket::{bucket_name, bucket_name_of, date_has_bucket, is_bucket_name};
use crate::stats::SkipReason;
use vstd::prelude::*;

verus! {

/// A planned move as plain sequences of characters.
///
/// The source is `source_dir` / `file_name`; the destination is
/// `root` / `bucket` / `file_name`.
pub struct PlannedMoveView {
    pub source_dir: Seq<char>,
    pub file_name: Seq<char>,
    pub root: Seq<char>,
    pub bucket: Seq<char>,
}

/// A move that has been planned and not yet carried out. Its bucket always
/// has the shape of a bucket name.
#[derive(Debug)]
pub struct PlannedMove {
    source_dir: String,
    file_name: String,
    root: String,
    bucket: String,
}

impl View for PlannedMove {
    type V = PlannedMoveView;

    closed spec fn view(&self) -> PlannedMoveView {
        PlannedMoveView {
            source_dir: self.source_dir@,
            file_name: self.file_name@,
            root: self.root@,
            bucket: self.bucket@,
        }
    }
}

impl PlannedMove {
    #[verifier::type_invariant]
    spec fn bucket_is_shaped(self) -> bool {
        is_bucket_name(self.bucket@)
    }

    /// Plans the move of `file_name` out of `source_dir` into the bucket of
    /// the given month below `root`. There is a plan exactly where the date
    /// has a bucket.
    pub fn for_month(
        source_dir: String,
        file_name: String,
        root: String,
        year: i32,
        month: u32,
    ) -> (r: Option<PlannedMove>)
        ensures
            match r {
                Some(plan) => date_has_bucket(year as int, month as int) && plan@ == (
                PlannedMoveView {
                    source_dir: source_dir@,
                    file_name: file_name@,
                    root: root@,
                    bucket: bucket_name_of(year as int, month as int),
                }),
                None => !date_has_bucket(year as int, month as int),
            },
    {
        match bucket_name(year, month) {
            Some(bucket) => Some(PlannedMove { source_dir, file_name, root, bucket }),
            None => None,
        }
    }

    /// The directory that holds the entry.
    pub fn source_dir(&self) -> (s: &str)
        ensures
            s@ == self@.source_dir,
    {
        self.source_dir.as_str()
    }

    /// The name of the entry, which it keeps in its bucket.
    pub fn file_name(&self) -> (s: &str)
        ensures
            s@ == self@.file_name,
    {
        self.file_name.as_str()
    }

    /// The directory being organised, in which the bucket stands.
    pub fn root(&self) -> (s: &str)
        ensures
            s@ == self@.root,
    {
        self.root.as_str()
    }

    /// The name of the bucket directory.
    pub fn bucket(&self) -> (s: &str)
        ensures
            s@ == self@.bucket,
            is_bucket_name(s@),
    {
        proof {
            use_type_invariant(self);
        }
        self.bucket.as_str()
    }

    /// Settles a plan once it is known whether something exists at its
    /// destination: if so the entry is skipped and nothing is overwritten,
    /// else the plan stands as it is.
    pub fn confirm(self, destination_exists: bool) -> (r: Result<PlannedMove, SkipReason>)
        ensures
            match r {
                Ok(plan) => !destination_exists && plan@ == self@,
                Err(reason) => destination_exists && reason == SkipReason::Collision,
            },
    {
        if destination_exists {
            Err(SkipReason::Collision)
        } else {
            Ok(self)
        }
    }
}

} // verus!
