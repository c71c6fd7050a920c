//! Wall clock, monotonic clock and timestamps.

use std::time::{Instant, SystemTime, UNIX_EPOCH};
use vstd::prelude::*;

verus! {

/// A reading of the monotonic clock.
#[verifier::external_type_specification]
#[verifier::external_body]
pub struct ExInstant(Instant);

/// A reading of the wall clock.
#[verifier::external_type_specification]
#[verifier::external_body]
pub struct ExSystemTime(SystemTime);

/// `Instant::now`: reads the monotonic clock. Nothing is known of the reading.
pub assume_specification[ Instant::now ]() -> Instant;

/// `SystemTime::now`: reads the wall clock. Nothing is known of the reading.
pub assume_specification[ SystemTime::now ]() -> SystemTime;

/// The whole microseconds from one reading of the monotonic clock to another; zero where the second
/// is the earlier one.
pub uninterp spec fn micros_between(start: Instant, end: Instant) -> u128;

/// `Instant::saturating_duration_since`, in whole microseconds. The number depends on the two
/// readings alone. How many there are is not stated, since readings of the clock are opaque.
#[verifier::external_body]
pub(crate) fn measure_micros(start: &Instant, end: &Instant) -> (micros: u128)
    ensures
        micros == micros_between(*start, *end),
{
    end.saturating_duration_since(*start).as_micros()
}

/// The whole milliseconds from the Unix epoch to a reading of the wall clock; `None` for a reading
/// before the epoch.
pub uninterp spec fn epoch_millis(time: SystemTime) -> Option<u128>;

/// `SystemTime::duration_since` the Unix epoch, in whole milliseconds; `None` for a reading before
/// the epoch. The number depends on the reading alone. How many there are is not stated, since
/// readings of the clock are opaque.
#[verifier::external_body]
pub(crate) fn millis_since_epoch(time: SystemTime) -> (millis: Option<u128>)
    ensures
        millis == epoch_millis(time),
{
    time.duration_since(UNIX_EPOCH).map(|d| d.as_millis()).ok()
}

/// A point in time: seconds since the Unix epoch, and nanoseconds within the second (one thousand
/// million or more within a leap second).
pub type Moment = (i64, u32);

/// Whether `a` is later than `b`.
pub open spec fn later(a: Moment, b: Moment) -> bool {
    a.0 > b.0 || (a.0 == b.0 && a.1 > b.1)
}

/// Whether `a` is later than `b`.
pub fn is_later(a: Moment, b: Moment) -> (r: bool)
    ensures
        r == later(a, b),
{
    a.0 > b.0 || (a.0 == b.0 && a.1 > b.1)
}

/// The moment that an RFC 3339 text denotes; `None` where the text is not one.
pub uninterp spec fn rfc3339_moment(text: Seq<char>) -> Option<Moment>;

/// `chrono::DateTime::parse_from_rfc3339`. Two of its values compare by the seconds and then by
/// the nanoseconds that are handed out here, whatever their offsets.
#[verifier::external_body]
pub(crate) fn parse_rfc3339(text: &str) -> (moment: Option<Moment>)
    ensures
        moment == rfc3339_moment(text@),
{
    chrono::DateTime::parse_from_rfc3339(text)
        .map(|d| (d.timestamp(), d.timestamp_subsec_nanos()))
        .ok()
}

/// `chrono::Local::now`: the current moment. Nothing is known of it. A machine whose clock stands
/// before the epoch, or whose time zone cannot be had, makes the call panic.
#[verifier::external_body]
pub(crate) fn local_now() -> (moment: Moment) {
    let now = chrono::Local::now();
    (now.timestamp(), now.timestamp_subsec_nanos())
}

/// The clock may give this moment as the current one.
pub closed spec fn is_reading(moment: Moment) -> bool {
    call_ensures(local_now, (), moment)
}

/// The current moment, as the clock gives it.
pub(crate) fn current_moment() -> (moment: Moment)
    ensures
        is_reading(moment),
{
    local_now()
}

} // verus!
