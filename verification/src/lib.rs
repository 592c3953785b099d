//! A model of the live telemetry a train's onboard API serves: an
//! instantaneous status snapshot (speed, position, server time) and trip data
//! (stops, schedules, delays, distances), with verified query logic over it.
//!
//! The network transport, the JSON decoding of the wire documents and the
//! textual rendering of timestamps live outside this crate; the types here
//! hold the decoded values and the functions here derive everything the
//! downstream tools ask of them: station lookup by EVA number, neighbouring
//! stops, distances along the route, and delay durations parsed from their
//! compact sign-prefixed encoding.

use vstd::prelude::*;

pub mod status;
pub mod trip_info;

verus! {

/// Stores what is needed to address the train's onboard API: the two
/// endpoint URLs and the user-agent header value the transport sends along,
/// since the API refuses requests that do not look like a browser's.
///
/// The crate itself performs no I/O; the surrounding program reads these
/// fields, fetches the two JSON documents and decodes them into [`status::Status`]
/// and [`trip_info::Trip`] values for the query functions here.
pub struct TrainInformation {
    /// The URL of the JSON status page.
    pub status_url: String,
    /// The URL of the JSON tripInfo page.
    pub trip_info_url: String,
    /// The user-agent to pass with the HTTP GET requests.
    pub user_agent: String,
}

impl TrainInformation {
    /// Creates a new `TrainInformation` from the two endpoint URLs and the
    /// user-agent of a web browser.
    pub fn new(status_url: &str, trip_info_url: &str, user_agent: &str) -> (r: TrainInformation)
        ensures
            r.status_url@ == status_url@,
            r.trip_info_url@ == trip_info_url@,
            r.user_agent@ == user_agent@,
    {
        TrainInformation {
            status_url: status_url.to_owned(),
            trip_info_url: trip_info_url.to_owned(),
            user_agent: user_agent.to_owned(),
        }
    }
}

/// A point in time, as seconds and nanoseconds of the Unix epoch.
///
/// Stands in for a timezone-aware timestamp: rendering it as local-calendar
/// text is left to the caller, since that rendering may legitimately fail and
/// is a display concern.
#[derive(Clone, Copy, Debug, PartialEq, Eq, Structural)]
pub struct Timespec {
    /// Whole seconds since the Unix epoch; negative before it.
    pub sec: i64,
    /// Sub-second part in nanoseconds; carries the sign of the millisecond
    /// value it was split from.
    pub nsec: i32,
}

/// Quotient of `a` divided by `b`, truncated toward zero, for `b > 0`.
pub open spec fn trunc_div(a: int, b: int) -> int {
    if a >= 0 {
        a / b
    } else {
        -((-a) / b)
    }
}

/// The timestamp an epoch-millisecond value denotes: whole seconds by
/// truncating division, the leftover milliseconds scaled to nanoseconds.
pub open spec fn spec_timespec_from_epoch_ms(ms: i64) -> Timespec {
    Timespec {
        sec: trunc_div(ms as int, 1000) as i64,
        nsec: ((ms as int - 1000 * trunc_div(ms as int, 1000)) * 1_000_000) as i32,
    }
}

impl Timespec {
    /// Split an epoch timestamp in milliseconds into whole seconds and a
    /// nanosecond remainder, both truncated toward zero.
    pub fn from_epoch_ms(ms: i64) -> (r: Timespec)
        ensures
            r == spec_timespec_from_epoch_ms(ms),
    {
        let sec = ms.checked_div(1000).unwrap();
        let rem = ms.checked_rem(1000).unwrap();
        let nsec = (rem as i32) * 1_000_000;
        Timespec { sec, nsec }
    }
}

} // verus!
