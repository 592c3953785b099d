//! Accessors for [`TrackInfo`].

use vstd::prelude::*;

use super::TrackInfo;

verus! {

impl TrackInfo {
    /// The scheduled track at a station.
    pub fn scheduled(&self) -> (r: &String)
        ensures
            *r == self.scheduled,
    {
        &self.scheduled
    }

    /// The actual track at a station.
    pub fn actual(&self) -> (r: &String)
        ensures
            *r == self.actual,
    {
        &self.actual
    }
}

} // verus!
