//! An absolute UTC instant with millisecond precision.

use crate::calendar::{utc_civil, CivilTime, CIVIL_END_MILLIS, CIVIL_START_MILLIS};
use vstd::prelude::*;

verus! {

/// An absolute UTC instant: a count of milliseconds since
/// 1970-01-01T00:00:00Z, leap seconds not counted.
#[derive(Clone, Copy, Debug, PartialEq, Eq, Structural)]
pub struct AuthoritativeInstant {
    pub millis: i64,
}

impl View for AuthoritativeInstant {
    type V = int;

    open spec fn view(&self) -> int {
        self.millis as int
    }
}

impl AuthoritativeInstant {
    /// The instant `millis` milliseconds after the epoch (before it, if negative).
    pub fn from_unix_millis(millis: i64) -> (r: Self)
        ensures
            r@ == millis,
    {
        AuthoritativeInstant { millis }
    }

    /// The milliseconds from the epoch to this instant.
    pub fn unix_millis(&self) -> (r: i64)
        ensures
            r == self@,
    {
        self.millis
    }

    /// The whole seconds from the epoch to this instant, rounded down, as a
    /// clock without sub-second resolution takes them.
    pub fn unix_seconds(&self) -> (r: i64)
        ensures
            r * 1000 <= self@ < r * 1000 + 1000,
            r == self@ / 1000,
    {
        let q: i64 = self.millis / 1000;
        if self.millis % 1000 < 0 {
            q - 1
        } else {
            q
        }
    }

    /// Calendar and clock of this instant in UTC, as a clock that is set by
    /// date and time takes them; none for an instant outside the years 1 to
    /// 65535, whose year a field of sixteen bits would not hold.
    pub fn civil(&self) -> (r: Option<CivilTime>)
        ensures
            match r {
                Some(civil) => civil.wf() && civil.epoch_millis() == self@,
                None => self@ < CIVIL_START_MILLIS || self@ >= CIVIL_END_MILLIS,
            },
    {
        if CIVIL_START_MILLIS <= self.millis && self.millis < CIVIL_END_MILLIS {
            utc_civil(self.millis)
        } else {
            None
        }
    }

    /// The milliseconds by which this instant lies after `unix_seconds`.
    pub fn subsec_millis(&self) -> (r: u32)
        ensures
            r < 1000,
            self@ == (self@ / 1000) * 1000 + r,
            r == self@ % 1000,
    {
        let m: i64 = self.millis % 1000;
        if m < 0 {
            (m + 1000) as u32
        } else {
            m as u32
        }
    }
}

} // verus!
