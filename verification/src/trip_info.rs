//! The trip data model: an ordered sequence of stops along a route, the
//! vicinity record naming the train's neighbouring stops, and the spec
//! functions the query contracts are stated over.

use vstd::prelude::*;

mod delay_reason;
mod misc_info;
mod station_info;
mod stop;
mod time_info;
mod track_info;
mod train_vicinity;
mod trip;

verus! {

/// The GPS coordinates of a train station.
///
/// The upstream data carries them as IEEE 754 single-precision numbers; this
/// crate holds the raw bit patterns and never computes on them, so nothing is
/// lost carrying a value through. Callers that want the numbers reassemble
/// them with `f32::from_bits`.
#[derive(Clone, Copy, Debug, PartialEq, Eq, Structural)]
pub struct Coordinates {
    /// Bit pattern of the station's latitude.
    pub latitude_bits: u32,
    /// Bit pattern of the station's longitude.
    pub longitude_bits: u32,
}

/// References the last and the next stop of the train, by EVA number.
///
/// These identifiers are not guaranteed to resolve: a referenced stop may be
/// absent from the trip's stop sequence, and a lookup miss is an ordinary
/// absent result, never an error.
#[derive(Clone, Debug)]
pub struct TrainVicinity {
    /// The next scheduled stop.
    pub scheduled_next: String,
    /// The next actual stop.
    pub actual_next: String,
    /// The last actual stop.
    pub actual_last: String,
    /// The next stop at the point in time of departure from the last stop.
    pub actual_last_started: String,
    /// The EVA number of the final station.
    pub final_station_id: String,
    /// The name of the final station.
    pub final_station_name: String,
}

/// A train station in the trajectory of a train.
#[derive(Clone, Debug)]
pub struct StationInfo {
    /// The station's EVA number, the key every lookup goes by.
    pub eva_nr: String,
    /// The human-readable station name.
    pub name: String,
    /// The geographic coordinates of the station.
    pub coordinates: Coordinates,
}

/// Schedules and delays at one stop.
///
/// Arrival fields are absent for the first stop of a route and departure
/// fields for the last one; the delay fields use the compact sign-prefixed
/// minute encoding parsed by [`TimeInfo::delay_string_to_duration`].
#[derive(Clone, Debug)]
pub struct TimeInfo {
    /// The scheduled time of arrival, as epoch milliseconds.
    pub scheduled_arrival_ms: Option<i64>,
    /// The actual time of arrival, as epoch milliseconds.
    pub actual_arrival_ms: Option<i64>,
    /// The arrival delay, e.g. `"+5"`, `"-2"` or `""`.
    pub arrival_delay: String,
    /// The scheduled time of departure, as epoch milliseconds.
    pub scheduled_departure_ms: Option<i64>,
    /// The actual time of departure, as epoch milliseconds.
    pub actual_departure_ms: Option<i64>,
    /// The departure delay, in the same encoding as the arrival delay.
    pub departure_delay: String,
}

/// The track/platform at a specific station.
#[derive(Clone, Debug)]
pub struct TrackInfo {
    /// The scheduled track.
    pub scheduled: String,
    /// The actual track.
    pub actual: String,
}

/// Miscellaneous information about a specific stop.
#[derive(Clone, Debug)]
pub struct MiscInfo {
    /// An undocumented status code, preserved as an opaque passthrough value.
    pub status_code: i32,
    /// Whether the station has already been passed.
    pub passed: bool,
    /// The distance from the previous stop to this one, in meters.
    pub distance_from_previous_m: i64,
    /// The distance from the origin of the trajectory to this stop, in meters.
    pub distance_from_origin_m: i64,
}

/// A reason for a delay.
#[derive(Clone, Debug)]
pub struct DelayReason {
    /// A short code classifying the reason.
    pub code: String,
    /// The human-readable text of the reason.
    pub text: String,
}

/// A stop in the trajectory of a train.
#[derive(Clone, Debug)]
pub struct Stop {
    /// Train station information.
    pub station: StationInfo,
    /// Timetable information.
    pub timetable: TimeInfo,
    /// Track information.
    pub track: TrackInfo,
    /// Miscellaneous information.
    pub info: MiscInfo,
    /// If delayed, the reasons are indicated here; absent when no delay or no
    /// reason is known.
    pub delay_reasons: Option<Vec<DelayReason>>,
}

/// The trip of a train: identity, progress along the route, and the ordered
/// stop sequence all queries run over.
#[derive(Clone, Debug)]
pub struct Trip {
    /// The date of the trip in yyyy-mm-dd format.
    pub trip_date: String,
    /// The type of the train (most commonly, "ICE").
    pub train_type: String,
    /// The train number, unique on each day of the timetable.
    pub train_number: String,
    /// An undocumented position value, preserved as an opaque passthrough.
    pub actual_position: i64,
    /// The current distance from the last stop in the trajectory, in meters.
    pub distance_from_last_stop_m: i64,
    /// The total length of the route from start to end, in meters.
    pub total_distance_m: i64,
    /// Last/next stop information.
    pub vicinity: TrainVicinity,
    /// The stops along the trajectory, in route order from origin to
    /// destination. Station ids carry no uniqueness guarantee; lookups return
    /// the first match.
    pub stops: Vec<Stop>,
}

/// A distance in kilometers, held exactly as a count of thousandths of a
/// kilometer. The value denoted is `thousandths / 1000` km; converting a
/// meter count divides by 1000 with nothing rounded away.
#[derive(Clone, Copy, Debug, PartialEq, Eq, Structural)]
pub struct Kilometers {
    /// Thousandths of a kilometer, i.e. meters.
    pub thousandths: i128,
}

/// A signed delay duration, in whole minutes.
#[derive(Clone, Copy, Debug, PartialEq, Eq, Structural)]
pub struct Duration {
    /// The number of minutes; negative for a train running early.
    pub minutes: i64,
}

/// The ways a non-empty delay string can fail to denote a duration.
///
/// A malformed string is a defect in the upstream data and surfaces here; it
/// is never silently coerced to a zero delay.
#[derive(Clone, Copy, Debug, PartialEq, Eq, Structural)]
pub enum DelayParseError {
    /// The string is non-empty but is not a `+` or `-` sign followed by at
    /// least one decimal digit.
    Format,
    /// The string is well-formed but its magnitude in minutes does not fit
    /// the result type.
    Overflow,
}

/// Whether `c` is a decimal digit.
pub open spec fn is_digit_char(c: char) -> bool {
    '0' <= c && c <= '9'
}

/// The value of the decimal digit `c`.
pub open spec fn digit_val(c: char) -> int {
    c as int - '0' as int
}

/// Whether every character of `s` is a decimal digit.
pub open spec fn all_digits(s: Seq<char>) -> bool {
    forall|i: int| 0 <= i < s.len() ==> is_digit_char(s[i])
}

/// The number a sequence of decimal digits denotes, most significant first.
pub open spec fn digits_value(s: Seq<char>) -> int
    decreases s.len(),
{
    if s.len() == 0 {
        0
    } else {
        digits_value(s.drop_last()) * 10 + digit_val(s.last())
    }
}

/// Whether `s` is a valid delay string: empty, or a `+` or `-` sign followed
/// by one or more decimal digits.
pub open spec fn is_valid_delay_string(s: Seq<char>) -> bool {
    ||| s.len() == 0
    ||| (s.len() >= 2 && (s[0] == '+' || s[0] == '-') && all_digits(s.subrange(1, s.len() as int)))
}

/// The delay in minutes a valid delay string denotes: zero for the empty
/// string, otherwise the digits' value under the sign character.
pub open spec fn delay_minutes(s: Seq<char>) -> int {
    if s.len() == 0 {
        0
    } else if s[0] == '+' {
        digits_value(s.subrange(1, s.len() as int))
    } else {
        -digits_value(s.subrange(1, s.len() as int))
    }
}

/// What parsing a delay string yields, in full: the zero duration for the
/// empty string; the signed minute value for a sign character followed by
/// digits; a format error for every other string; and an overflow error for a
/// well-formed string whose magnitude in minutes exceeds `i64::MAX`.
pub open spec fn spec_parse_delay(s: Seq<char>) -> Result<Duration, DelayParseError> {
    if !is_valid_delay_string(s) {
        Err(DelayParseError::Format)
    } else if delay_minutes(s) < -(i64::MAX as int) || delay_minutes(s) > i64::MAX as int {
        Err(DelayParseError::Overflow)
    } else {
        Ok(Duration { minutes: delay_minutes(s) as i64 })
    }
}

/// Whether `stop` is the stop the EVA number `eva_nr` designates.
pub open spec fn stop_matches(stop: Stop, eva_nr: Seq<char>) -> bool {
    stop.station.eva_nr@ == eva_nr
}

/// The stop a lookup by EVA number finds: the first element of `stops` whose
/// station id equals `eva_nr`, or nothing when no element matches.
pub open spec fn spec_get_stop(stops: Seq<Stop>, eva_nr: Seq<char>) -> Option<Stop>
    decreases stops.len(),
{
    if stops.len() == 0 {
        None
    } else if stop_matches(stops[0], eva_nr) {
        Some(stops[0])
    } else {
        spec_get_stop(stops.subrange(1, stops.len() as int), eva_nr)
    }
}

} // verus!
