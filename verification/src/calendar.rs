//! The calendar month in which an instant falls, in the time zone of the host.

use chrono::Datelike;
use vstd::prelude::*;

verus! {

/// The instants that fall in a year from 0 to 9999 in every time zone: from
/// one day after the beginning of the year 0 to one day before the end of the
/// year 9999, both in UTC, with nanoseconds that stay within their second.
pub open spec fn in_calendar_range(secs: i64, nanos: u32) -> bool {
    -62_167_132_800 <= secs <= 253_402_214_399 && nanos < 1_000_000_000
}

/// The year and month of an instant in the local time zone, by chrono:
/// `DateTime::from_timestamp` makes the instant, `DateTime::with_timezone`
/// moves it to `chrono::Local`, and `Datelike::year` and `Datelike::month`
/// read the date. The result is `None` where chrono cannot represent the
/// instant.
///
/// Which month is answered depends on the time zone of the host, so the
/// contract says what holds in every zone. A month number lies between 1 and
/// 12, as chrono documents. For an instant in the calendar range there is an
/// answer, since `from_timestamp` refuses only seconds outside the years that
/// chrono represents and nanoseconds of a second or more; and its year lies
/// between 0 and 9999, since chrono makes no offset from UTC of a day or more
/// (`FixedOffset::east_opt`, `FixedOffset::west_opt`) and the local date is
/// the UTC date moved by the offset.
///
/// This is claimed of the calls that return. For any instant chrono stops the
/// program where it cannot tell the offset of the host's zone: on Unix where
/// the zone data of the host give an offset of a day or more, on Windows
/// where the system does not tell the zone rules of the year or tells such
/// an offset. No condition on `secs` and `nanos` leaves that out.
#[verifier::external_body]
pub(crate) fn local_year_month(secs: i64, nanos: u32) -> (r: Option<(i32, u32)>)
    ensures
        match r {
            Some((_, month)) => 1 <= month <= 12,
            None => true,
        },
        in_calendar_range(secs, nanos) ==> (match r {
            Some((year, _)) => 0 <= year <= 9999,
            None => false,
        }),
{
    let utc = chrono::DateTime::from_timestamp(secs, nanos)?;
    let local = utc.with_timezone(&chrono::Local);
    Some((local.year(), local.month()))
}

} // verus!
