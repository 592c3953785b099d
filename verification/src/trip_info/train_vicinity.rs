//! Accessors for [`TrainVicinity`].

use vstd::prelude::*;

use super::TrainVicinity;

verus! {

impl TrainVicinity {
    /// Get the next scheduled stop.
    pub fn scheduled_next(&self) -> (r: &String)
        ensures
            *r == self.scheduled_next,
    {
        &self.scheduled_next
    }

    /// Get the next actual stop.
    pub fn actual_next(&self) -> (r: &String)
        ensures
            *r == self.actual_next,
    {
        &self.actual_next
    }

    /// Get the last actual stop.
    pub fn actual_last(&self) -> (r: &String)
        ensures
            *r == self.actual_last,
    {
        &self.actual_last
    }

    /// Get the next stop at the point in time of departure from the last stop.
    pub fn actual_last_started(&self) -> (r: &String)
        ensures
            *r == self.actual_last_started,
    {
        &self.actual_last_started
    }
}

} // verus!
