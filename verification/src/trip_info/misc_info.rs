//! Accessors and derived distances for [`MiscInfo`].

use vstd::prelude::*;

use super::Kilometers;
use super::MiscInfo;
use super::Trip;

verus! {

impl MiscInfo {
    /// The undocumented status code of this stop.
    pub fn status(&self) -> (r: i32)
        ensures
            r == self.status_code,
    {
        self.status_code
    }

    /// Whether the station has already been passed.
    pub fn passed(&self) -> (r: bool)
        ensures
            r == self.passed,
    {
        self.passed
    }

    /// The distance from the previous stop to this one, in kilometers.
    pub fn distance_to_previous_stop(&self) -> (r: Kilometers)
        ensures
            r.thousandths == self.distance_from_previous_m as int,
    {
        Trip::distance_to_km(self.distance_from_previous_m)
    }

    /// The distance from the origin of the trajectory to this stop, in
    /// kilometers.
    pub fn distance_to_origin(&self) -> (r: Kilometers)
        ensures
            r.thousandths == self.distance_from_origin_m as int,
    {
        Trip::distance_to_km(self.distance_from_origin_m)
    }
}

} // verus!
