//! The moment at which an expense or income happened, kept as plain numbers,
//! and its text form in the store.

use vstd::prelude::*;

verus! {

/// A moment in time as seen in some local time zone: whole seconds since
/// 1970-01-01T00:00:00Z, the nanoseconds past that second, and the zone's
/// offset east of UTC in seconds.
#[derive(Clone, Copy, Debug, PartialEq, Eq)]
pub struct Timestamp {
    pub seconds: i64,
    pub nanos: u32,
    pub offset_seconds: i32,
}

/// The RFC 3339 text of a moment, or `None` where the offset or the moment is
/// out of the calendar's range.
pub uninterp spec fn rfc3339_of(seconds: i64, nanos: u32, offset_seconds: i32) -> Option<Seq<char>>;

/// The moment, subsecond nanoseconds and offset that an RFC 3339 text
/// denotes, or `None` where the text is no such date and time.
pub uninterp spec fn moment_of_rfc3339(text: Seq<char>) -> Option<(i64, u32, i32)>;

pub open spec fn text_of(t: Timestamp) -> Option<Seq<char>> {
    rfc3339_of(t.seconds, t.nanos, t.offset_seconds)
}

pub open spec fn timestamp_of_text(text: Seq<char>) -> Option<Timestamp> {
    match moment_of_rfc3339(text) {
        Some(m) => Some(Timestamp { seconds: m.0, nanos: m.1, offset_seconds: m.2 }),
        None => None,
    }
}

/// Relies on chrono's FixedOffset::east_opt, TimeZone::timestamp_opt and
/// DateTime::to_rfc3339: the text under which a moment is stored, which
/// depends on the three numbers alone.
#[verifier::external_body]
pub(crate) fn rfc3339_text(t: &Timestamp) -> (r: Option<String>)
    ensures
        r is Some <==> rfc3339_of(t.seconds, t.nanos, t.offset_seconds) is Some,
        r is Some ==> r->Some_0@ == rfc3339_of(t.seconds, t.nanos, t.offset_seconds)->Some_0,
{
    chrono::FixedOffset::east_opt(t.offset_seconds).and_then(
        |zone| chrono::TimeZone::timestamp_opt(&zone, t.seconds, t.nanos).single(),
    ).map(|moment| moment.to_rfc3339())
}

/// Relies on chrono's DateTime::parse_from_rfc3339, read back through
/// `timestamp`, `timestamp_subsec_nanos` and `local_minus_utc`: the moment
/// that a stored text denotes, which depends on the text alone.
#[verifier::external_body]
pub(crate) fn parse_rfc3339(text: &str) -> (r: Option<Timestamp>)
    ensures
        r is Some <==> moment_of_rfc3339(text@) is Some,
        r is Some ==> r->Some_0 == timestamp_of_text(text@)->Some_0,
{
    chrono::DateTime::parse_from_rfc3339(text).ok().map(
        |d| Timestamp {
            seconds: d.timestamp(),
            nanos: d.timestamp_subsec_nanos(),
            offset_seconds: d.offset().local_minus_utc(),
        },
    )
}

/// The text under which a moment is stored, where the store can keep it
/// exactly: the text form writes the offset in whole minutes and the
/// fraction of a second below one second, so other moments are not stored.
pub open spec fn storable_text(t: Timestamp) -> Option<Seq<char>> {
    if t.nanos < 1_000_000_000 && t.offset_seconds % 60 == 0 {
        rfc3339_of(t.seconds, t.nanos, t.offset_seconds)
    } else {
        None
    }
}

/// The text under which `t` is stored; `None` where it cannot be stored.
pub fn stored_text(t: &Timestamp) -> (r: Option<String>)
    ensures
        r is Some <==> storable_text(*t) is Some,
        r is Some ==> r->Some_0@ == storable_text(*t)->Some_0,
{
    if t.nanos < 1_000_000_000 && t.offset_seconds % 60 == 0 {
        rfc3339_text(t)
    } else {
        None
    }
}

} // verus!
