//! The train's status snapshot: speed, position and server time, decoded
//! from one JSON document and immutable from then on.

use vstd::prelude::*;

use crate::Timespec;
use crate::spec_timespec_from_epoch_ms;
use crate::trip_info::Coordinates;

verus! {

/// The current state of the train (speed, location, time).
///
/// Speed and position arrive as IEEE 754 single-precision numbers; the crate
/// holds their raw bit patterns and computes nothing from them, so a value
/// carries through unchanged. Rendering the snapshot as text is a display
/// concern and lives with the surrounding program.
#[derive(Clone, Copy, Debug, PartialEq, Eq, Structural)]
pub struct Status {
    /// Bit pattern of the speed of the train, in km/h.
    pub speed_bits: u32,
    /// Bit pattern of the GPS latitude of the train.
    pub latitude_bits: u32,
    /// Bit pattern of the GPS longitude of the train.
    pub longitude_bits: u32,
    /// The server time of the request, as milliseconds of the Unix epoch.
    pub server_time_ms: i64,
}

impl Status {
    /// Get the GPS coordinates of the train.
    pub fn coordinates(&self) -> (r: Coordinates)
        ensures
            r.latitude_bits == self.latitude_bits,
            r.longitude_bits == self.longitude_bits,
    {
        Coordinates { latitude_bits: self.latitude_bits, longitude_bits: self.longitude_bits }
    }

    /// Get the server time, split into whole seconds of the Unix epoch and a
    /// nanosecond remainder.
    pub fn server_time(&self) -> (r: Timespec)
        ensures
            r == spec_timespec_from_epoch_ms(self.server_time_ms),
    {
        Timespec::from_epoch_ms(self.server_time_ms)
    }
}

} // verus!
