//! Stop lookup, navigation and distance queries over a [`Trip`].

use vstd::prelude::*;

use super::Kilometers;
use super::Stop;
use super::Trip;
use super::spec_get_stop;
use super::stop_matches;

verus! {

/// A lookup over an empty stop sequence finds nothing, whatever the EVA
/// number asked for.
pub proof fn lemma_get_stop_empty(stops: Seq<Stop>, eva_nr: Seq<char>)
    requires
        stops.len() == 0,
    ensures
        spec_get_stop(stops, eva_nr) is None,
{
}

/// A lookup over a sequence in which no stop carries the EVA number asked
/// for finds nothing.
pub proof fn lemma_get_stop_none(stops: Seq<Stop>, eva_nr: Seq<char>)
    requires
        forall|j: int| 0 <= j < stops.len() ==> !stop_matches(stops[j], eva_nr),
    ensures
        spec_get_stop(stops, eva_nr) is None,
    decreases stops.len(),
{
    if stops.len() > 0 {
        let rest = stops.subrange(1, stops.len() as int);
        assert forall|j: int| 0 <= j < rest.len() implies !stop_matches(
            rest[j],
            eva_nr,
        ) by {
            assert(rest[j] == stops[j + 1]);
        }
        lemma_get_stop_none(rest, eva_nr);
    }
}

/// A lookup finds the first match: when the stop at index `i` carries the
/// EVA number asked for and no earlier stop does, the lookup returns exactly
/// that stop, duplicates further along notwithstanding.
pub proof fn lemma_get_stop_first_match(stops: Seq<Stop>, eva_nr: Seq<char>, i: int)
    requires
        0 <= i < stops.len(),
        stop_matches(stops[i], eva_nr),
        forall|j: int| 0 <= j < i ==> !stop_matches(stops[j], eva_nr),
    ensures
        spec_get_stop(stops, eva_nr) == Some(stops[i]),
    decreases i,
{
    if i > 0 {
        let rest = stops.subrange(1, stops.len() as int);
        assert(rest[i - 1] == stops[i]);
        assert forall|j: int| 0 <= j < i - 1 implies !stop_matches(
            rest[j],
            eva_nr,
        ) by {
            assert(rest[j] == stops[j + 1]);
        }
        lemma_get_stop_first_match(rest, eva_nr, i - 1);
    }
}

impl Trip {
    /// Get a reference to a specific stop indexed by an EVA number: a linear
    /// scan in route order returning the first match.
    pub fn get_stop(&self, eva_nr: &String) -> (r: Option<&Stop>)
        ensures
            match r {
                Some(stop) => spec_get_stop(self.stops@, eva_nr@) == Some(*stop),
                None => spec_get_stop(self.stops@, eva_nr@) is None,
            },
    {
        let n = self.stops.len();
        let mut i: usize = 0;
        while i < n
            invariant
                n == self.stops@.len(),
                i <= n,
                forall|j: int| 0 <= j < i ==> !stop_matches(self.stops@[j], eva_nr@),
            decreases n - i,
        {
            if self.stops[i].station.eva_nr == *eva_nr {
                proof {
                    lemma_get_stop_first_match(self.stops@, eva_nr@, i as int);
                }
                return Some(&self.stops[i]);
            }
            i += 1;
        }
        proof {
            lemma_get_stop_none(self.stops@, eva_nr@);
        }
        None
    }

    /// Get a reference to the next stop in the trajectory of the train, if
    /// the vicinity's `actual_next` id resolves to one.
    pub fn next_stop(&self) -> (r: Option<&Stop>)
        ensures
            match r {
                Some(stop) => spec_get_stop(self.stops@, self.vicinity.actual_next@) == Some(
                    *stop,
                ),
                None => spec_get_stop(self.stops@, self.vicinity.actual_next@) is None,
            },
    {
        self.get_stop(&self.vicinity.actual_next)
    }

    /// Get a reference to the previous stop in the trajectory of the train,
    /// if the vicinity's `actual_last` id resolves to one.
    pub fn previous_stop(&self) -> (r: Option<&Stop>)
        ensures
            match r {
                Some(stop) => spec_get_stop(self.stops@, self.vicinity.actual_last@) == Some(
                    *stop,
                ),
                None => spec_get_stop(self.stops@, self.vicinity.actual_last@) is None,
            },
    {
        self.get_stop(&self.vicinity.actual_last)
    }

    /// Get a reference to the first station in the trajectory, absent when
    /// the trip has no stops at all.
    pub fn origin(&self) -> (r: Option<&Stop>)
        ensures
            match r {
                Some(stop) => self.stops@.len() > 0 && *stop == self.stops@[0],
                None => self.stops@.len() == 0,
            },
    {
        if self.stops.len() > 0 {
            Some(&self.stops[0])
        } else {
            None
        }
    }

    /// Get a reference to the final station in the trajectory, if the
    /// vicinity's final-station id resolves to one.
    pub fn destination(&self) -> (r: Option<&Stop>)
        ensures
            match r {
                Some(stop) => spec_get_stop(self.stops@, self.vicinity.final_station_id@)
                    == Some(*stop),
                None => spec_get_stop(self.stops@, self.vicinity.final_station_id@) is None,
            },
    {
        self.get_stop(&self.vicinity.final_station_id)
    }

    /// Converts an integral distance in meters to kilometers, exactly: a
    /// meter is a thousandth of a kilometer, so nothing is rounded away.
    pub fn distance_to_km(distance: i64) -> (r: Kilometers)
        ensures
            r.thousandths == distance as int,
    {
        Kilometers { thousandths: distance as i128 }
    }

    /// Get the train's live distance since its last stop, in kilometers.
    pub fn distance_to_previous_stop(&self) -> (r: Kilometers)
        ensures
            r.thousandths == self.distance_from_last_stop_m as int,
    {
        Trip::distance_to_km(self.distance_from_last_stop_m)
    }

    /// Get the distance to the next stop in kilometers: the next stop's
    /// distance from its predecessor, less the distance already covered.
    ///
    /// Absent when no next stop resolves. The two measurements are assumed
    /// upstream to share a reference point but that is not verified there,
    /// so the result may be negative; callers must not assume otherwise.
    pub fn distance_to_next_stop(&self) -> (r: Option<Kilometers>)
        ensures
            match r {
                Some(km) => {
                    &&& spec_get_stop(self.stops@, self.vicinity.actual_next@) matches Some(stop)
                    &&& km.thousandths == stop.info.distance_from_previous_m
                        - self.distance_from_last_stop_m
                },
                None => spec_get_stop(self.stops@, self.vicinity.actual_next@) is None,
            },
    {
        match self.next_stop() {
            Some(stop) => Some(
                Kilometers {
                    thousandths: stop.info.distance_from_previous_m as i128
                        - self.distance_from_last_stop_m as i128,
                },
            ),
            None => None,
        }
    }

    /// Get the distance between the previous and the next stop in
    /// kilometers, absent when no next stop resolves.
    pub fn distance_between_adjacent_stops(&self) -> (r: Option<Kilometers>)
        ensures
            match r {
                Some(km) => {
                    &&& spec_get_stop(self.stops@, self.vicinity.actual_next@) matches Some(stop)
                    &&& km.thousandths == stop.info.distance_from_previous_m as int
                },
                None => spec_get_stop(self.stops@, self.vicinity.actual_next@) is None,
            },
    {
        match self.next_stop() {
            Some(stop) => Some(Trip::distance_to_km(stop.info.distance_from_previous_m)),
            None => None,
        }
    }

    /// The total distance travelled by this train from start to end, in
    /// kilometers.
    pub fn total_distance(&self) -> (r: Kilometers)
        ensures
            r.thousandths == self.total_distance_m as int,
    {
        Trip::distance_to_km(self.total_distance_m)
    }

    /// Returns the identifier of the train: the train type and the train
    /// number joined by a single space, like "ICE 123".
    pub fn train_identifier(&self) -> (r: String)
        ensures
            r@ == self.train_type@ + " "@ + self.train_number@,
    {
        let mut r = self.train_type.clone();
        r.append(" ");
        r.append(self.train_number.as_str());
        r
    }

    /// The type of the train, e.g. "ICE".
    pub fn train_type(&self) -> (r: &String)
        ensures
            *r == self.train_type,
    {
        &self.train_type
    }

    /// The unique number of the train, unique on each day of the timetable.
    pub fn train_number(&self) -> (r: &String)
        ensures
            *r == self.train_number,
    {
        &self.train_number
    }
}

} // verus!
