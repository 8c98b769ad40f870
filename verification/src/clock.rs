//! Readings of the clock.
use crate::outside::{clock_now, clock_shows};
use vstd::prelude::*;

verus! {

/// What the clock showed when it was read. No reading is made in any other way, so what is
/// said of a reading is said of the clock.
#[derive(Clone, Copy)]
pub struct Reading {
    secs: i64,
}

impl Reading {
    /// The seconds since the start of 1970.
    pub closed spec fn secs(self) -> i64 {
        self.secs
    }

    /// Reads the clock.
    pub fn now() -> (r: Reading)
        ensures
            clock_shows(r.secs()),
    {
        Reading { secs: clock_now() }
    }

    /// The seconds since the start of 1970.
    pub fn seconds(&self) -> (r: i64)
        ensures
            r == self.secs(),
    {
        self.secs
    }
}

} // verus!
