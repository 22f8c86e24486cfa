//! Timestamps: RFC 3339 texts produced and read by `chrono`.
use crate::domain::opt_string_view;
use chrono::{DateTime, Utc};
use std::time::{SystemTime, UNIX_EPOCH};
use vstd::prelude::*;

verus! {

/// `DateTime::parse_from_rfc3339` accepts the text.
pub uninterp spec fn rfc3339_valid(s: Seq<char>) -> bool;

/// What an RFC 3339 time looks like in the document list: the UTC time
/// formatted with `%Y-%m-%d %H:%M`.
pub uninterp spec fn minute_text_of(s: Seq<char>) -> Seq<char>;

/// The text `DateTime::from_timestamp(secs, nanos)` and `to_rfc3339` give for
/// the UTC time `secs` seconds and `nanos` nanoseconds after the Unix epoch,
/// or `None` when `from_timestamp` refuses the pair.
pub uninterp spec fn timestamp_rfc3339_of(secs: i64, nanos: u32) -> Option<Seq<char>>;

/// The first second of the year 0000, as Unix time.
pub const FIRST_FOUR_DIGIT_SECOND: i64 = -62167219200;

/// The last second of the year 9999, as Unix time.
pub const LAST_FOUR_DIGIT_SECOND: i64 = 253402300799;

/// A Unix time within the years 0000 to 9999, with nanoseconds within the
/// second.
pub open spec fn in_four_digit_years(secs: i64, nanos: u32) -> bool {
    FIRST_FOUR_DIGIT_SECOND <= secs <= LAST_FOUR_DIGIT_SECOND && nanos < 1_000_000_000
}

/// Calls `DateTime::from_timestamp` and `to_rfc3339`. The text is named by
/// `timestamp_rfc3339_of`. For a year from 0000 to 9999 and nanoseconds within
/// the second, `from_timestamp` gives a time, `to_rfc3339` writes it with a
/// four-digit year and `parse_from_rfc3339` accepts the text, which is also
/// stated; of other years nothing more is said.
#[verifier::external_body]
fn rfc3339_at(secs: i64, nanos: u32) -> (r: Option<String>)
    ensures
        opt_string_view(r) == timestamp_rfc3339_of(secs, nanos),
        in_four_digit_years(secs, nanos) ==> r is Some,
        r matches Some(t) ==> (in_four_digit_years(secs, nanos) ==> rfc3339_valid(t@)),
{
    match DateTime::from_timestamp(secs, nanos) {
        Some(t) => Some(t.to_rfc3339()),
        None => None,
    }
}

/// A reading of the system clock.
#[verifier::external_type_specification]
#[verifier::external_body]
pub struct ExSystemTime(SystemTime);

/// Calls `SystemTime::now`: the system clock's current reading. It depends
/// on the clock; nothing is stated of it.
#[verifier::external_body]
fn clock_now() -> (r: SystemTime) {
    SystemTime::now()
}

/// Calls `duration_since(UNIX_EPOCH)` on a clock reading: how far it lies
/// from the Unix epoch, in whole seconds and the nanoseconds beyond them, and
/// whether that is before the epoch (the error case, whose `duration` gives
/// the distance). Only that the nanoseconds are below one second
/// (`Duration::subsec_nanos`) is stated: the reading is opaque here.
#[verifier::external_body]
fn offset_from_epoch(t: &SystemTime) -> (r: (bool, u64, u32))
    ensures
        r.2 < 1_000_000_000,
{
    match t.duration_since(UNIX_EPOCH) {
        Ok(d) => (false, d.as_secs(), d.subsec_nanos()),
        Err(e) => (true, e.duration().as_secs(), e.duration().subsec_nanos()),
    }
}

/// The Unix time (whole seconds, and nanoseconds within the second) of a
/// clock reading `secs` seconds and `nanos` nanoseconds after the epoch, or
/// before it when `before` holds.
pub open spec fn epoch_time(before: bool, secs: int, nanos: int) -> (int, int) {
    if !before {
        (secs, nanos)
    } else if nanos == 0 {
        (-secs, 0)
    } else {
        (-secs - 1, 1_000_000_000 - nanos)
    }
}

/// The Unix time of a clock reading, `None` when its seconds do not fit in an
/// `i64`.
pub fn unix_time(before: bool, secs: u64, nanos: u32) -> (r: Option<(i64, u32)>)
    requires
        nanos < 1_000_000_000,
    ensures
        match r {
            Some(t) => t.0 as int == epoch_time(before, secs as int, nanos as int).0 && t.1 as int
                == epoch_time(before, secs as int, nanos as int).1 && t.1 < 1_000_000_000,
            None => secs > i64::MAX,
        },
{
    if secs > 9223372036854775807u64 {
        return None;
    }
    let s: i64 = secs as i64;
    if !before {
        Some((s, nanos))
    } else if nanos == 0 {
        Some((-s, 0))
    } else {
        Some((-s - 1, 1_000_000_000 - nanos))
    }
}

/// A clock reading whose Unix time fits in an `i64` and falls within the
/// years 0000 to 9999.
pub open spec fn reading_in_four_digit_years(before: bool, secs: u64, nanos: u32) -> bool {
    let t = epoch_time(before, secs as int, nanos as int);
    &&& secs <= i64::MAX
    &&& FIRST_FOUR_DIGIT_SECOND <= t.0 <= LAST_FOUR_DIGIT_SECOND
    &&& 0 <= t.1 < 1_000_000_000
}

/// The RFC 3339 text of a clock reading: the text of its Unix time when the
/// reading falls within the years 0000 to 9999, `None` otherwise.
pub open spec fn reading_rfc3339(before: bool, secs: u64, nanos: u32) -> Option<Seq<char>> {
    let t = epoch_time(before, secs as int, nanos as int);
    if reading_in_four_digit_years(before, secs, nanos) {
        timestamp_rfc3339_of(t.0 as i64, t.1 as u32)
    } else {
        None
    }
}

/// The RFC 3339 text of a clock reading `secs` seconds and `nanos`
/// nanoseconds after (or, when `before`, before) the Unix epoch.
pub fn rfc3339_of_reading(before: bool, secs: u64, nanos: u32) -> (r: Option<String>)
    requires
        nanos < 1_000_000_000,
    ensures
        opt_string_view(r) == reading_rfc3339(before, secs, nanos),
        r is Some <==> reading_in_four_digit_years(before, secs, nanos),
        r matches Some(t) ==> rfc3339_valid(t@),
{
    match unix_time(before, secs, nanos) {
        Some((s, n)) => if FIRST_FOUR_DIGIT_SECOND <= s && s <= LAST_FOUR_DIGIT_SECOND {
            rfc3339_at(s, n)
        } else {
            None
        },
        None => None,
    }
}

/// The current time as RFC 3339 text: the text of the system clock's
/// reading, `None` when that reading is outside the years 0000 to 9999.
pub fn now_rfc3339() -> (r: Option<String>)
    ensures
        r matches Some(t) ==> rfc3339_valid(t@),
{
    let reading = clock_now();
    let (before, secs, nanos) = offset_from_epoch(&reading);
    rfc3339_of_reading(before, secs, nanos)
}

/// Calls `DateTime::parse_from_rfc3339` and reports whether it succeeds.
#[verifier::external_body]
pub fn is_rfc3339(s: &str) -> (r: bool)
    ensures
        r == rfc3339_valid(s@),
{
    DateTime::parse_from_rfc3339(s).is_ok()
}

/// Calls `DateTime::parse_from_rfc3339`, `with_timezone(&Utc)` and
/// `format("%Y-%m-%d %H:%M")`. The text is named by `minute_text_of`.
#[verifier::external_body]
pub(crate) fn minute_text(s: &str) -> (r: String)
    requires
        rfc3339_valid(s@),
    ensures
        r@ == minute_text_of(s@),
{
    match DateTime::parse_from_rfc3339(s) {
        Ok(t) => t.with_timezone(&Utc).format("%Y-%m-%d %H:%M").to_string(),
        Err(_) => String::new(),
    }
}

} // verus!
