//! The timestamp normalizer: one provider-supplied date string becomes an
//! optional canonical UTC instant.
//!
//! Providers encode release dates in four incompatible ways.  The
//! normalizer tries the encodings in a fixed order and the first
//! successful interpretation wins:
//!
//! 1. strict date-time with explicit offset (for example
//!    `2021-05-01T12:00:00+00:00`), converted to UTC;
//! 2. naive `YYYY-MM-DD HH:MM:SS`, read as already-UTC wall clock;
//! 3. date-only `YYYY-MM-DD`, padded with a synthetic midnight and fed to
//!    the same parser as 2;
//! 4. a decimal integer, read as a millisecond-resolution Unix epoch
//!    count and truncated to whole seconds.
//!
//! A string matching none of the four yields no date at all — never an
//! error: a record with an unreadable date keeps everything but the date.

use vstd::prelude::*;

use crate::model::UtcInstant;
use crate::numeric::millis_to_seconds;
use crate::numeric::parse_i64;
use crate::numeric::spec_millis_to_seconds;
use crate::numeric::spec_parse_i64;

verus! {

/// What chrono reads from `s` as a strict date-time with explicit
/// offset, as seconds since the Unix epoch.
pub uninterp spec fn rfc3339_epoch_seconds(s: Seq<char>) -> Option<i64>;

/// What chrono reads from `s` as a naive `YYYY-MM-DD HH:MM:SS` wall
/// clock taken to be UTC, as seconds since the Unix epoch.
pub uninterp spec fn naive_utc_epoch_seconds(s: Seq<char>) -> Option<i64>;

/// Relies on chrono's `DateTime::parse_from_rfc3339`, plus `timestamp`
/// on the parsed value: a strict date-time with explicit offset becomes
/// seconds since the Unix epoch, in UTC.  The result depends on the
/// characters of `s` alone.
#[verifier::external_body]
fn parse_rfc3339_utc(s: &str) -> (r: Option<i64>)
    ensures
        r == rfc3339_epoch_seconds(s@),
{
    chrono::DateTime::parse_from_rfc3339(s).ok().map(|d| d.timestamp())
}

/// Relies on chrono's `NaiveDateTime::parse_from_str` with the fixed
/// pattern `%Y-%m-%d %T`, plus `and_utc` and `timestamp` on the parsed
/// value: a naive wall-clock date-time read as already-UTC becomes
/// seconds since the Unix epoch.  The result depends on the characters
/// of `s` alone.
#[verifier::external_body]
fn parse_naive_utc(s: &str) -> (r: Option<i64>)
    ensures
        r == naive_utc_epoch_seconds(s@),
{
    chrono::NaiveDateTime::parse_from_str(s, "%Y-%m-%d %T").ok().map(|d| d.and_utc().timestamp())
}

/// A date-only string padded with a synthetic midnight, so that the
/// naive date-time parser accepts it.
pub open spec fn spec_midnight_padded(s: Seq<char>) -> Seq<char> {
    s + " 00:00:00"@
}

/// What the millisecond-epoch encoding reads from `s`: a signed decimal
/// integer, truncated to whole seconds.
pub open spec fn spec_epoch_millis_seconds(s: Seq<char>) -> Option<int> {
    match spec_parse_i64(s) {
        Some(ms) => Some(spec_millis_to_seconds(ms)),
        None => None,
    }
}

/// The canonical instant a date string normalizes to, trying the four
/// encodings in order; the first success wins and later encodings are
/// never consulted.
pub open spec fn spec_normalize_date(s: Seq<char>) -> Option<int> {
    if rfc3339_epoch_seconds(s) is Some {
        Some(rfc3339_epoch_seconds(s).unwrap() as int)
    } else if naive_utc_epoch_seconds(s) is Some {
        Some(naive_utc_epoch_seconds(s).unwrap() as int)
    } else if naive_utc_epoch_seconds(spec_midnight_padded(s)) is Some {
        Some(naive_utc_epoch_seconds(spec_midnight_padded(s)).unwrap() as int)
    } else {
        spec_epoch_millis_seconds(s)
    }
}

/// Normalizes one provider date string to a canonical UTC instant,
/// exactly as [`spec_normalize_date`] describes.
///
/// For every input string, the result is absent precisely when all four
/// encodings fail to read it; an unreadable date is a normal outcome,
/// never an error.
pub fn normalize_date(s: &str) -> (r: Option<UtcInstant>)
    ensures
        match r {
            Some(t) => spec_normalize_date(s@) == Some(t.epoch_seconds as int),
            None => spec_normalize_date(s@) is None,
        },
        r is None <==> (rfc3339_epoch_seconds(s@) is None && naive_utc_epoch_seconds(s@) is None
            && naive_utc_epoch_seconds(spec_midnight_padded(s@)) is None && spec_parse_i64(s@)
            is None),
{
    if let Some(secs) = parse_rfc3339_utc(s) {
        return Some(UtcInstant { epoch_seconds: secs });
    }
    if let Some(secs) = parse_naive_utc(s) {
        return Some(UtcInstant { epoch_seconds: secs });
    }
    let padded = s.to_owned().concat(" 00:00:00");
    if let Some(secs) = parse_naive_utc(padded.as_str()) {
        return Some(UtcInstant { epoch_seconds: secs });
    }
    match parse_i64(s) {
        Some(ms) => Some(UtcInstant { epoch_seconds: millis_to_seconds(ms) }),
        None => None,
    }
}

} // verus!
