//! Instants and the minimum-age filter.

use vstd::prelude::*;

verus! {

/// The number of seconds in a day.
pub const SECS_PER_DAY: u64 = 86_400;

/// An instant: whole seconds since the Unix epoch, negative before it, and
/// the nanoseconds past that second.
#[derive(Clone, Copy, Debug, PartialEq, Eq, Structural)]
pub struct Timestamp {
    pub secs: i64,
    pub nanos: u32,
}

impl Timestamp {
    /// The instant as a count of nanoseconds since the Unix epoch.
    pub open spec fn nanos_since_epoch(self) -> int {
        self.secs * 1_000_000_000 + self.nanos
    }

    /// The instant with these two fields.
    pub fn new(secs: i64, nanos: u32) -> (t: Timestamp)
        ensures
            t == (Timestamp { secs, nanos }),
    {
        Timestamp { secs, nanos }
    }

    /// The instant that lies `secs` seconds and `nanos` nanoseconds after the
    /// Unix epoch, where its whole seconds fit.
    pub fn after_epoch(secs: u64, nanos: u32) -> (r: Option<Timestamp>)
        ensures
            match r {
                Some(t) => t.nanos_since_epoch() == secs * 1_000_000_000 + nanos && t.nanos
                    < 1_000_000_000,
                None => secs * 1_000_000_000 + nanos >= 0x8000_0000_0000_0000 * 1_000_000_000,
            },
    {
        let whole: u128 = secs as u128 + (nanos / 1_000_000_000) as u128;
        let part: u32 = nanos % 1_000_000_000;
        if whole <= i64::MAX as u128 {
            Some(Timestamp { secs: whole as i64, nanos: part })
        } else {
            None
        }
    }

    /// The instant that lies `secs` seconds and `nanos` nanoseconds before
    /// the Unix epoch, where its whole seconds fit. The nanoseconds of an
    /// instant count forward from the second at or before it.
    pub fn before_epoch(secs: u64, nanos: u32) -> (r: Option<Timestamp>)
        ensures
            match r {
                Some(t) => t.nanos_since_epoch() == -(secs * 1_000_000_000 + nanos) && t.nanos
                    < 1_000_000_000,
                None => secs * 1_000_000_000 + nanos > 0x8000_0000_0000_0000 * 1_000_000_000,
            },
    {
        let whole: i128 = secs as i128 + (nanos / 1_000_000_000) as i128;
        let part: u32 = nanos % 1_000_000_000;
        if part == 0 {
            if whole <= 0x8000_0000_0000_0000 {
                Some(Timestamp { secs: (-whole) as i64, nanos: 0 })
            } else {
                None
            }
        } else {
            if whole < 0x8000_0000_0000_0000 {
                Some(Timestamp { secs: (-whole - 1) as i64, nanos: 1_000_000_000 - part })
            } else {
                None
            }
        }
    }
}

/// How long before `now` the instant `then` lies, in nanoseconds; negative
/// where `then` is in the future.
pub open spec fn age_nanos(now: Timestamp, then: Timestamp) -> int {
    now.nanos_since_epoch() - then.nanos_since_epoch()
}

/// The age filter: an entry is too young when its timestamp is not in the
/// future and its age is below the minimum. An age equal to the minimum
/// passes, and a minimum of zero lets every entry pass.
pub open spec fn is_too_young(now: Timestamp, then: Timestamp, min_age_secs: u64) -> bool {
    0 <= age_nanos(now, then) < min_age_secs * 1_000_000_000
}

/// Whether the age filter holds back an entry with timestamp `then`.
pub fn too_young(now: &Timestamp, then: &Timestamp, min_age_secs: u64) -> (b: bool)
    ensures
        b == is_too_young(*now, *then, min_age_secs),
{
    let n: i128 = now.secs as i128 * 1_000_000_000 + now.nanos as i128;
    let t: i128 = then.secs as i128 * 1_000_000_000 + then.nanos as i128;
    let age: i128 = n - t;
    let min_age: i128 = min_age_secs as i128 * 1_000_000_000;
    0 <= age && age < min_age
}

/// A number of whole days as seconds, where a `u64` holds them.
pub fn secs_from_days(days: u64) -> (r: Option<u64>)
    ensures
        match r {
            Some(secs) => secs == days * 86_400,
            None => days * 86_400 > u64::MAX,
        },
{
    days.checked_mul(SECS_PER_DAY)
}

/// The filter at its threshold: an entry whose age is exactly the minimum
/// passes, and an entry one second younger is held back.
pub proof fn lemma_age_threshold(now: Timestamp, then: Timestamp, min_age_secs: u64)
    ensures
        age_nanos(now, then) == min_age_secs * 1_000_000_000 ==> !is_too_young(
            now,
            then,
            min_age_secs,
        ),
        min_age_secs >= 1 && age_nanos(now, then) == (min_age_secs - 1) * 1_000_000_000
            ==> is_too_young(now, then, min_age_secs),
{
}

/// A minimum age of zero is no filter: no entry is held back.
pub proof fn lemma_zero_age_is_no_filter(now: Timestamp, then: Timestamp)
    ensures
        !is_too_young(now, then, 0),
{
}

} // verus!
