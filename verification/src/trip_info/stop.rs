//! Accessors for [`Stop`].

use vstd::prelude::*;

use super::DelayReason;
use super::MiscInfo;
use super::StationInfo;
use super::Stop;
use super::TimeInfo;
use super::TrackInfo;

verus! {

impl Stop {
    /// The train station associated with this stop.
    pub fn station(&self) -> (r: &StationInfo)
        ensures
            *r == self.station,
    {
        &self.station
    }

    /// The arrival and departure times associated with this stop.
    pub fn timetable(&self) -> (r: &TimeInfo)
        ensures
            *r == self.timetable,
    {
        &self.timetable
    }

    /// The track on which the train stops at this stop's station.
    pub fn track(&self) -> (r: &TrackInfo)
        ensures
            *r == self.track,
    {
        &self.track
    }

    /// Miscellaneous information about this stop.
    pub fn info(&self) -> (r: &MiscInfo)
        ensures
            *r == self.info,
    {
        &self.info
    }

    /// Delay reasons, if any; absent when no delay or no reason is known.
    pub fn delay_reasons(&self) -> (r: &Option<Vec<DelayReason>>)
        ensures
            *r == self.delay_reasons,
    {
        &self.delay_reasons
    }
}

} // verus!
