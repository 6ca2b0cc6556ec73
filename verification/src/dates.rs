//! Civil (calendar) view of a report's creation timestamp, and the date
//! renderings the output layout uses.
//!
//! A timestamp is carried as non-leap seconds since the Unix epoch; the
//! conversion to a UTC calendar date is done by chrono behind a trusted
//! wrapper, and everything built on top of the triple is verified.

use vstd::prelude::*;

use chrono::Datelike;

verus! {

use crate::strutil::{spec_dec_digits, spec_dec2, u64_to_string, u64_to_string_pad2};
use vstd::string::StringExecFns;

/// Largest timestamp the library accepts: 9999-12-31T23:59:59 UTC, the
/// last second whose year still renders as four digits.
pub const MAX_TIMESTAMP: i64 = 253402300799;

/// The UTC calendar date (year, month, day) of a Unix timestamp.
pub uninterp spec fn civil_of(ts: int) -> (int, int, int);

/// Relies on chrono's `DateTime::<Utc>::from_timestamp` and the `Datelike`
/// accessors `year`, `month` and `day`: the UTC calendar date is a function
/// of the timestamp alone; months are 1..=12 and days 1..=31; and for
/// timestamps between the epoch and 9999-12-31T23:59:59Z the year lies in
/// 1970..=9999, so `from_timestamp` returns a value.
#[verifier::external_body]
pub fn civil_from_timestamp(ts: i64) -> (r: (u16, u8, u8))
    requires
        0 <= ts <= MAX_TIMESTAMP,
    ensures
        civil_of(ts as int) == (r.0 as int, r.1 as int, r.2 as int),
        1970 <= r.0 <= 9999,
        1 <= r.1 <= 12,
        1 <= r.2 <= 31,
{
    let dt = chrono::DateTime::<chrono::Utc>::from_timestamp(ts, 0)
        .expect("timestamp within the supported range");
    (dt.year() as u16, dt.month() as u8, dt.day() as u8)
}

/// `YYYY-MM` rendering of a calendar date (the month directory name).
pub open spec fn spec_year_month(y: int, m: int) -> Seq<char> {
    spec_dec_digits(y) + "-"@ + spec_dec2(m)
}

/// `YYYYMMDD` rendering of a calendar date (the file-name stem prefix).
pub open spec fn spec_compact_date(y: int, m: int, d: int) -> Seq<char> {
    spec_dec_digits(y) + spec_dec2(m) + spec_dec2(d)
}

/// `YYYY-MM` directory name for the calendar date of `ts`.
pub fn year_month_string(ts: i64) -> (r: String)
    requires
        0 <= ts <= MAX_TIMESTAMP,
    ensures
        r@ == spec_year_month(civil_of(ts as int).0, civil_of(ts as int).1),
{
    let (y, m, _d) = civil_from_timestamp(ts);
    let mut s = u64_to_string(y as u64);
    s.append("-");
    let ms = u64_to_string_pad2(m as u64);
    s.append(ms.as_str());
    s
}

/// `YYYYMMDD` stem prefix for the calendar date of `ts`.
pub fn compact_date_string(ts: i64) -> (r: String)
    requires
        0 <= ts <= MAX_TIMESTAMP,
    ensures
        r@ == spec_compact_date(
            civil_of(ts as int).0,
            civil_of(ts as int).1,
            civil_of(ts as int).2,
        ),
{
    let (y, m, d) = civil_from_timestamp(ts);
    let mut s = u64_to_string(y as u64);
    let ms = u64_to_string_pad2(m as u64);
    s.append(ms.as_str());
    let ds = u64_to_string_pad2(d as u64);
    s.append(ds.as_str());
    s
}

} // verus!
