//! UTC instants as plain values, and the calendar arithmetic the service
//! needs on them.  The arithmetic itself is done by `chrono`.

use chrono::DateTime;
use chrono::TimeDelta;
use chrono::Timelike;
use chrono::Utc;
use vstd::prelude::*;

verus! {

/// Earliest instant `chrono` can represent: -262143-01-01T00:00:00Z, in
/// seconds since the Unix epoch.
pub const MIN_TIMESTAMP_SECS: i64 = -8334601228800;

/// Latest whole second `chrono` can represent: +262142-12-31T23:59:59Z.
pub const MAX_TIMESTAMP_SECS: i64 = 8210266876799;

/// Nanoseconds in one second.
pub const NANOS_PER_SECOND: u32 = 1_000_000_000;

/// Seconds in one hour.
pub const SECONDS_PER_HOUR: i64 = 3600;

/// A UTC instant: whole seconds since 1970-01-01T00:00:00Z and the
/// nanoseconds within that second.  As in `chrono`, a leap second is written
/// as second 59 of its minute with `nanos` of one billion or more.
#[derive(Clone, Copy, Debug, PartialEq, Eq, Structural)]
pub struct Timestamp {
    pub secs: i64,
    pub nanos: u32,
}

impl Timestamp {
    /// The instant is one that `chrono`'s `DateTime<Utc>` can hold.
    pub open spec fn wf(self) -> bool {
        &&& MIN_TIMESTAMP_SECS <= self.secs <= MAX_TIMESTAMP_SECS
        &&& self.nanos < 2 * NANOS_PER_SECOND
        &&& self.nanos >= NANOS_PER_SECOND ==> (self.secs as int) % 60 == 59
    }

    /// The instant does not lie inside a leap second.
    pub open spec fn is_regular(self) -> bool {
        self.nanos < NANOS_PER_SECOND
    }

    /// Builds an instant from its parts, refusing those `chrono` cannot hold.
    pub fn new(secs: i64, nanos: u32) -> (r: Option<Timestamp>)
        ensures
            r is Some <==> (Timestamp { secs, nanos }).wf(),
            r matches Some(t) ==> t == (Timestamp { secs, nanos }),
    {
        let t = Timestamp { secs, nanos };
        if MIN_TIMESTAMP_SECS <= secs && secs <= MAX_TIMESTAMP_SECS && nanos < 2 * NANOS_PER_SECOND
            && (nanos < NANOS_PER_SECOND || secs % 60 == 59 || secs % 60 == -1) {
            Some(t)
        } else {
            None
        }
    }
}

/// Start of the UTC hour that contains `t`.
pub open spec fn spec_floor_to_hour(t: Timestamp) -> Timestamp {
    Timestamp { secs: (t.secs - (t.secs as int) % 3600) as i64, nanos: 0 }
}

/// Calls `chrono::Timelike::with_nanosecond` on the UTC date-time `t`.
/// Claims that only the fraction of the second changes, to `nano`.
#[verifier::external_body]
fn chrono_with_nanosecond(t: Timestamp, nano: u32) -> (r: Timestamp)
    requires
        t.wf(),
        nano < NANOS_PER_SECOND,
    ensures
        r == (Timestamp { secs: t.secs, nanos: nano }),
{
    let dt = DateTime::from_timestamp(t.secs, t.nanos).unwrap();
    let moved = dt.with_nanosecond(nano).unwrap();
    Timestamp { secs: moved.timestamp(), nanos: moved.timestamp_subsec_nanos() }
}

/// Calls `chrono::Timelike::with_second` on the UTC date-time `t`.
/// Claims that only the second within the minute changes, to `second`.
#[verifier::external_body]
fn chrono_with_second(t: Timestamp, second: u32) -> (r: Timestamp)
    requires
        t.wf(),
        t.is_regular(),
        second < 60,
    ensures
        r == (Timestamp {
            secs: (t.secs - (t.secs as int) % 60 + second) as i64,
            nanos: t.nanos,
        }),
{
    let dt = DateTime::from_timestamp(t.secs, t.nanos).unwrap();
    let moved = dt.with_second(second).unwrap();
    Timestamp { secs: moved.timestamp(), nanos: moved.timestamp_subsec_nanos() }
}

/// Calls `chrono::Timelike::with_minute` on the UTC date-time `t`.
/// Claims that only the minute within the hour changes, to `minute`.
#[verifier::external_body]
fn chrono_with_minute(t: Timestamp, minute: u32) -> (r: Timestamp)
    requires
        t.wf(),
        t.is_regular(),
        minute < 60,
    ensures
        r == (Timestamp {
            secs: (t.secs - (t.secs as int) % 3600 + 60 * minute + (t.secs as int) % 60) as i64,
            nanos: t.nanos,
        }),
{
    let dt = DateTime::from_timestamp(t.secs, t.nanos).unwrap();
    let moved = dt.with_minute(minute).unwrap();
    Timestamp { secs: moved.timestamp(), nanos: moved.timestamp_subsec_nanos() }
}

/// Truncates `t` to the start of its UTC hour: minutes, seconds and
/// nanoseconds become zero.
pub fn floor_to_hour(t: Timestamp) -> (r: Timestamp)
    requires
        t.wf(),
    ensures
        r == spec_floor_to_hour(t),
        r.wf(),
{
    let a = chrono_with_nanosecond(t, 0);
    let b = chrono_with_second(a, 0);
    let c = chrono_with_minute(b, 0);
    c
}

/// Calls `chrono::Utc::now`.  Claims only what every outcome satisfies: a
/// regular instant at or after the Unix epoch (`now` panics on a clock set
/// before it) that `chrono` can hold.  Which instant comes back is the clock's.
#[verifier::external_body]
pub(crate) fn chrono_utc_now() -> (r: Timestamp)
    ensures
        r.wf(),
        r.is_regular(),
        r.secs >= 0,
{
    let now = Utc::now();
    Timestamp { secs: now.timestamp(), nanos: now.timestamp_subsec_nanos() }
}


/// Calls `chrono::DateTime::checked_add_signed` with `TimeDelta::hours(hours)`.
/// Claims: the result is `hours` hours later, and exists exactly when that
/// instant is still one `chrono` can hold.  A leap-second fraction is moved
/// into the ordinary second, as `chrono` does when a sum leaves the leap second.
#[verifier::external_body]
pub(crate) fn chrono_add_hours(t: Timestamp, hours: i64) -> (r: Option<Timestamp>)
    requires
        t.wf(),
        1 <= hours <= 1_000_000,
    ensures
        r is Some <==> t.secs + 3600 * hours <= MAX_TIMESTAMP_SECS,
        r matches Some(u) ==> u == (Timestamp {
            secs: (t.secs + 3600 * hours) as i64,
            nanos: (t.nanos % NANOS_PER_SECOND) as u32,
        }),
{
    let dt = DateTime::from_timestamp(t.secs, t.nanos).unwrap();
    match dt.checked_add_signed(TimeDelta::hours(hours)) {
        Some(later) => Some(Timestamp { secs: later.timestamp(), nanos: later.timestamp_subsec_nanos() }),
        None => None,
    }
}


/// The instant one hour after `t` (leap-second fraction folded into the second).
pub open spec fn spec_one_hour_later(t: Timestamp) -> Timestamp {
    Timestamp { secs: (t.secs + SECONDS_PER_HOUR) as i64, nanos: (t.nanos % NANOS_PER_SECOND) as u32 }
}

/// Day number (days since the epoch, rounded down) of an instant.
pub open spec fn day_of(t: Timestamp) -> int {
    (t.secs as int) / 86400
}

/// Second within its day of an instant.
pub open spec fn second_of_day(t: Timestamp) -> int {
    (t.secs as int) % 86400
}

/// Signed length of `end - start` in nanoseconds, counting a leap second as
/// `chrono` does: the time from inside a leap second to a later second of
/// the day includes the leap second, and symmetrically.
pub open spec fn duration_nanos(start: Timestamp, end: Timestamp) -> int {
    let whole = second_of_day(end) - second_of_day(start);
    let leap = if second_of_day(end) > second_of_day(start) && start.nanos >= NANOS_PER_SECOND {
        1int
    } else if second_of_day(end) < second_of_day(start) && end.nanos >= NANOS_PER_SECOND {
        -1int
    } else {
        0int
    };
    (day_of(end) - day_of(start)) * 86400 * 1_000_000_000 + (whole + leap) * 1_000_000_000 + (end.nanos
        - start.nanos)
}

/// Whole seconds in `end - start`, rounded toward zero.
pub open spec fn whole_seconds_between(start: Timestamp, end: Timestamp) -> int {
    let d = duration_nanos(start, end);
    if d >= 0 {
        d / 1_000_000_000
    } else {
        -((-d) / 1_000_000_000)
    }
}

/// Calls `end - start` on `chrono` date-times (`signed_duration_since`) and
/// reads the difference with `TimeDelta::num_seconds`.  Claims the result is
/// the difference in whole seconds, rounded toward zero.
#[verifier::external_body]
pub(crate) fn chrono_seconds_between(start: Timestamp, end: Timestamp) -> (r: i64)
    requires
        start.wf(),
        end.wf(),
    ensures
        r == whole_seconds_between(start, end),
{
    let s = DateTime::from_timestamp(start.secs, start.nanos).unwrap();
    let e = DateTime::from_timestamp(end.secs, end.nanos).unwrap();
    (e - s).num_seconds()
}


/// What `chrono::DateTime::parse_from_rfc3339` makes of a text, taken to UTC:
/// `None` when it refuses the text.
pub uninterp spec fn spec_parse_rfc3339(text: Seq<char>) -> Option<Timestamp>;

/// Calls `chrono::DateTime::parse_from_rfc3339` and converts the instant to
/// UTC.  Claims only that the result is the one named `spec_parse_rfc3339`
/// for this text.
#[verifier::external_body]
pub(crate) fn chrono_parse_rfc3339(text: &str) -> (r: Option<Timestamp>)
    ensures
        r == spec_parse_rfc3339(text@),
{
    match DateTime::parse_from_rfc3339(text) {
        Ok(dt) => {
            let utc = dt.with_timezone(&Utc);
            Some(Timestamp { secs: utc.timestamp(), nanos: utc.timestamp_subsec_nanos() })
        },
        Err(_) => None,
    }
}


/// `a` is no later than `b`.
pub open spec fn instant_le(a: Timestamp, b: Timestamp) -> bool {
    a.secs < b.secs || (a.secs == b.secs && a.nanos <= b.nanos)
}

/// `a` is earlier than `b`.
pub open spec fn instant_lt(a: Timestamp, b: Timestamp) -> bool {
    a.secs < b.secs || (a.secs == b.secs && a.nanos < b.nanos)
}

/// Truncating to the hour gives the start of an hour, at or before the
/// instant, less than an hour before it; truncating again changes nothing.
pub proof fn law_floor_to_hour_is_start_of_containing_hour(t: Timestamp)
    requires
        t.wf(),
    ensures
        spec_floor_to_hour(t).wf(),
        (spec_floor_to_hour(t).secs as int) % 3600 == 0,
        spec_floor_to_hour(t).nanos == 0,
        instant_le(spec_floor_to_hour(t), t),
        instant_lt(t, spec_one_hour_later(spec_floor_to_hour(t))),
        spec_floor_to_hour(spec_floor_to_hour(t)) == spec_floor_to_hour(t),
{
}

/// Instants in the same hour truncate to the same hour start.
pub proof fn law_floor_to_hour_same_hour(a: Timestamp, b: Timestamp)
    requires
        a.wf(),
        b.wf(),
        (a.secs as int) / 3600 == (b.secs as int) / 3600,
    ensures
        spec_floor_to_hour(a) == spec_floor_to_hour(b),
{
}

/// The whole seconds from `a` to `b` are those from `b` to `a`, negated.
pub proof fn law_seconds_between_antisymmetric(a: Timestamp, b: Timestamp)
    ensures
        whole_seconds_between(a, b) == -whole_seconds_between(b, a),
        whole_seconds_between(a, a) == 0,
{
    assert(duration_nanos(a, b) == -duration_nanos(b, a));
}

/// Between instants outside leap seconds the duration is the plain
/// difference of their seconds and nanoseconds.
pub proof fn law_duration_of_regular_instants(a: Timestamp, b: Timestamp)
    requires
        a.is_regular(),
        b.is_regular(),
    ensures
        duration_nanos(a, b) == (b.secs - a.secs) * 1_000_000_000 + (b.nanos - a.nanos),
{
    assert((b.secs as int) == day_of(b) * 86400 + second_of_day(b));
    assert((a.secs as int) == day_of(a) * 86400 + second_of_day(a));
    assert((day_of(b) - day_of(a)) * 86400 * 1_000_000_000 + (second_of_day(b) - second_of_day(a))
        * 1_000_000_000 == ((day_of(b) * 86400 + second_of_day(b)) - (day_of(a) * 86400
        + second_of_day(a))) * 1_000_000_000) by (nonlinear_arith);
}

} // verus!
