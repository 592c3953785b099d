//! Accessors for [`DelayReason`].

use vstd::prelude::*;

use super::DelayReason;

verus! {

impl DelayReason {
    /// The code of the delay reason.
    pub fn code(&self) -> (r: &String)
        ensures
            *r == self.code,
    {
        &self.code
    }

    /// The text associated with this delay reason.
    pub fn text(&self) -> (r: &String)
        ensures
            *r == self.text,
    {
        &self.text
    }
}

} // verus!
