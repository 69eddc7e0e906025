//! The time of day: what this library assumes of `chrono`, and when to
//! submit.

use crate::model::Timestamp;
use vstd::prelude::*;

verus! {

/// How long to wait for falling prices, in seconds.
pub const WAIT_SECONDS: i64 = 180;

/// The RFC 3339 text that `chrono` writes for a point in time in UTC, or
/// `None` where `chrono` has no such point in time.
pub uninterp spec fn rfc3339_text(secs: i64, nanos: u32) -> Option<Seq<char>>;

/// Whether `chrono` can write the point in time.
pub open spec fn writable(at: Timestamp) -> bool {
    rfc3339_text(at.secs, at.nanos) is Some
}

/// `chrono::Utc::now`, as seconds and nanoseconds since the Unix epoch.
///
/// Nothing is known of the time that it reads but that `chrono` can write
/// it: `chrono` makes the reading with `DateTime::from_timestamp`, and the
/// seconds and nanoseconds of a `DateTime` make the same `DateTime` again.
/// Where the system clock stands before 1970, `chrono` panics.
#[verifier::external_body]
pub(crate) fn now() -> (r: Timestamp)
    ensures
        writable(r),
{
    let t = chrono::Utc::now();
    Timestamp { secs: t.timestamp(), nanos: t.timestamp_subsec_nanos() }
}

/// `chrono::DateTime::to_rfc3339` on the point in time that
/// `chrono::DateTime::from_timestamp` makes of `at`: the text that
/// `rfc3339_text` names, and `None` exactly where it names none.
#[verifier::external_body]
pub(crate) fn rfc3339(at: Timestamp) -> (r: Option<String>)
    ensures
        r is Some <==> rfc3339_text(at.secs, at.nanos) is Some,
        r matches Some(text) ==> rfc3339_text(at.secs, at.nanos) == Some(text@),
{
    match chrono::DateTime::from_timestamp(at.secs, at.nanos) {
        Some(time) => Some(time.to_rfc3339()),
        None => None,
    }
}

/// Whether `chrono` can write the point in time `at`.
pub fn can_write(at: Timestamp) -> (r: bool)
    ensures
        r == writable(at),
{
    rfc3339(at).is_some()
}

/// The time `WAIT_SECONDS` after `now` where it pays to wait, `now` itself
/// where it does not. `None` where the later time is beyond what a
/// `Timestamp` holds.
pub open spec fn submission_time(wait: bool, now: Timestamp) -> Option<Timestamp> {
    if !wait {
        Some(now)
    } else if now.secs + WAIT_SECONDS <= i64::MAX {
        Some(Timestamp { secs: (now.secs + WAIT_SECONDS) as i64, nanos: now.nanos })
    } else {
        None
    }
}

/// When to submit a transaction, seen from `now`.
pub fn submit_at(wait: bool, now: Timestamp) -> (r: Option<Timestamp>)
    ensures
        r == submission_time(wait, now),
{
    if !wait {
        Some(now)
    } else if now.secs <= i64::MAX - WAIT_SECONDS {
        Some(Timestamp { secs: now.secs + WAIT_SECONDS, nanos: now.nanos })
    } else {
        None
    }
}

/// The time to submit at, as text: `submission_time` as `chrono` writes it.
/// Where that time cannot be held or written (it would lie more than two
/// hundred thousand years ahead) it is `now` that is written.
pub open spec fn submission_text(wait: bool, now: Timestamp) -> Seq<char> {
    match submission_time(wait, now) {
        Some(at) => if writable(at) {
            rfc3339_text(at.secs, at.nanos).unwrap()
        } else {
            rfc3339_text(now.secs, now.nanos).unwrap()
        },
        None => rfc3339_text(now.secs, now.nanos).unwrap(),
    }
}

/// Writes the time to submit a transaction at, seen from `now`.
pub fn write_submission(wait: bool, now: Timestamp) -> (r: String)
    requires
        writable(now),
    ensures
        r@ == submission_text(wait, now),
{
    let later: Option<String> = match submit_at(wait, now) {
        Some(at) => rfc3339(at),
        None => None,
    };
    match later {
        Some(text) => text,
        None => match rfc3339(now) {
            Some(text) => text,
            None => String::new(),
        },
    }
}

} // verus!
