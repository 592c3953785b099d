//! Accessors for [`StationInfo`].

use vstd::prelude::*;

use super::Coordinates;
use super::StationInfo;

verus! {

impl StationInfo {
    /// The station's EVA number.
    pub fn eva_nr(&self) -> (r: &String)
        ensures
            *r == self.eva_nr,
    {
        &self.eva_nr
    }

    /// The human-readable station name.
    pub fn name(&self) -> (r: &String)
        ensures
            *r == self.name,
    {
        &self.name
    }

    /// The geographic coordinates of the station.
    pub fn coordinates(&self) -> (r: &Coordinates)
        ensures
            *r == self.coordinates,
    {
        &self.coordinates
    }
}

} // verus!
