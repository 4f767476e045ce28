use vstd::prelude::*;
use time::format_description::well_known::Rfc3339;
use time::{Duration, OffsetDateTime};
use crate::error::StoreError;

verus! {

/// Longest lease a worker can take, in seconds.
pub const MAX_LEASE_SECONDS: u64 = 3600;
/// Longest retry delay, in seconds.
pub const MAX_RETRY_DELAY_SECONDS: u64 = 86400;

/// An ASCII decimal digit.
pub open spec fn is_digit(c: char) -> bool {
    '0' <= c <= '9'
}

/// An RFC 3339 timestamp in UTC as the `Rfc3339` format of `time` writes
/// it: `YYYY-MM-DDTHH:MM:SS`, an optional fraction of a second, and `Z`.
pub open spec fn is_rfc3339_utc(t: Seq<char>) -> bool {
    &&& t.len() >= 20
    &&& is_digit(t[0]) && is_digit(t[1]) && is_digit(t[2]) && is_digit(t[3])
    &&& t[4] == '-' && is_digit(t[5]) && is_digit(t[6])
    &&& t[7] == '-' && is_digit(t[8]) && is_digit(t[9])
    &&& t[10] == 'T' && is_digit(t[11]) && is_digit(t[12])
    &&& t[13] == ':' && is_digit(t[14]) && is_digit(t[15])
    &&& t[16] == ':' && is_digit(t[17]) && is_digit(t[18])
    &&& t[t.len() - 1] == 'Z'
    &&& t.len() > 20 ==> t[19] == '.' && forall|i: int| 20 <= i < t.len() - 1 ==> is_digit(#[trigger] t[i])
}

/// The value of a decimal digit.
pub open spec fn digit_value(c: char) -> int {
    (c as int) - ('0' as int)
}

/// The number written by two digits of `t` starting at `i`.
pub open spec fn two_digits(t: Seq<char>, i: int) -> int {
    10 * digit_value(t[i]) + digit_value(t[i + 1])
}

/// Days from 1970-01-01 to the proleptic Gregorian date `y-m-d`
/// (days-from-civil).
pub open spec fn days_from_civil(y: int, m: int, d: int) -> int {
    let yy = if m <= 2 { y - 1 } else { y };
    let era = yy / 400;
    let yoe = yy - era * 400;
    let mp = if m > 2 { m - 3 } else { m + 9 };
    let doy = (153 * mp + 2) / 5 + d - 1;
    let doe = yoe * 365 + yoe / 4 - yoe / 100 + doy;
    era * 146097 + doe - 719468
}

/// The whole seconds since 1970-01-01T00:00:00Z that an RFC 3339 UTC text
/// names (its fraction of a second left aside).
pub open spec fn rfc3339_seconds(t: Seq<char>) -> int {
    let year = 100 * two_digits(t, 0) + two_digits(t, 2);
    let days = days_from_civil(year, two_digits(t, 5), two_digits(t, 8));
    days * 86400 + two_digits(t, 11) * 3600 + two_digits(t, 14) * 60 + two_digits(t, 17)
}

/// The fraction of a second of an RFC 3339 UTC text, with its `Z`: what
/// follows the whole seconds.
pub open spec fn rfc3339_fraction(t: Seq<char>) -> Seq<char> {
    t.subrange(19, t.len() as int)
}

/// Reads the clock with `time::OffsetDateTime::now_utc` and formats it, and
/// the instant `seconds` later (`checked_add`), with the `Rfc3339` format.
/// Claimed: both texts, when formatting succeeds, have the shape that format
/// writes for a UTC offset (`YYYY-MM-DDTHH:MM:SS[.fraction]Z`), and the
/// second names the instant exactly `seconds` after the first (same fraction
/// of a second); which instant the first names is left open, as it depends
/// on the clock.
#[verifier::external_body]
fn utc_now_and_later(seconds: i64) -> (result: Result<(String, String), String>)
    ensures
        result is Ok ==> is_rfc3339_utc(result.unwrap().0@) && is_rfc3339_utc(result.unwrap().1@),
        result is Ok ==> rfc3339_seconds(result.unwrap().1@) == rfc3339_seconds(result.unwrap().0@) + seconds,
        result is Ok ==> rfc3339_fraction(result.unwrap().1@) == rfc3339_fraction(result.unwrap().0@),
{
    let now = OffsetDateTime::now_utc();
    let later = match now.checked_add(Duration::seconds(seconds)) {
        Some(value) => value,
        None => return Err("timestamp out of range".to_string()),
    };
    match (now.format(&Rfc3339), later.format(&Rfc3339)) {
        (Ok(a), Ok(b)) => Ok((a, b)),
        (Err(error), _) | (_, Err(error)) => Err(error.to_string()),
    }
}

/// The current UTC time as RFC 3339 text.
pub fn utc_now() -> (result: Result<String, StoreError>)
    ensures
        result matches Err(e) ==> e.is_internal(),
        result matches Ok(t) ==> is_rfc3339_utc(t@),
{
    match utc_now_and_later(0) {
        Ok((now, _)) => Ok(now),
        Err(message) => Err(StoreError::Internal(message)),
    }
}

/// The current time and the end of a lease of `lease_seconds`, which must
/// lie between 1 and `MAX_LEASE_SECONDS`.
pub fn lease_times(lease_seconds: u64) -> (result: Result<(String, String), StoreError>)
    ensures
        !(1 <= lease_seconds <= MAX_LEASE_SECONDS) ==> (result matches Err(e) && e.is_invalid_request()),
        (1 <= lease_seconds <= MAX_LEASE_SECONDS) ==> (result matches Err(e) ==> e.is_internal()),
        result matches Ok(times) ==> is_rfc3339_utc(times.0@) && is_rfc3339_utc(times.1@),
        result matches Ok(times) ==> rfc3339_seconds(times.1@) == rfc3339_seconds(times.0@)
            + lease_seconds && rfc3339_fraction(times.1@) == rfc3339_fraction(times.0@),
{
    if lease_seconds == 0 || lease_seconds > MAX_LEASE_SECONDS {
        return Err(StoreError::InvalidRequest("lease_seconds must be between 1 and 3600".to_string()));
    }
    match utc_now_and_later(lease_seconds as i64) {
        Ok(times) => Ok(times),
        Err(message) => Err(StoreError::Internal(message)),
    }
}

/// The current time and the time of the next retry after
/// `retry_delay_seconds`, which must lie between 1 and
/// `MAX_RETRY_DELAY_SECONDS`.
pub fn retry_time(retry_delay_seconds: u64) -> (result: Result<(String, String), StoreError>)
    ensures
        !(1 <= retry_delay_seconds <= MAX_RETRY_DELAY_SECONDS) ==> (result matches Err(e)
            && e.is_invalid_request()),
        (1 <= retry_delay_seconds <= MAX_RETRY_DELAY_SECONDS) ==> (result matches Err(e) ==> e.is_internal()),
        result matches Ok(times) ==> is_rfc3339_utc(times.0@) && is_rfc3339_utc(times.1@),
        result matches Ok(times) ==> rfc3339_seconds(times.1@) == rfc3339_seconds(times.0@)
            + retry_delay_seconds && rfc3339_fraction(times.1@) == rfc3339_fraction(times.0@),
{
    if retry_delay_seconds == 0 || retry_delay_seconds > MAX_RETRY_DELAY_SECONDS {
        return Err(StoreError::InvalidRequest("retry_delay_seconds must be between 1 and 86400".to_string()));
    }
    match utc_now_and_later(retry_delay_seconds as i64) {
        Ok(times) => Ok(times),
        Err(message) => Err(StoreError::Internal(message)),
    }
}

} // verus!
