//! Timestamps: the save stores epoch-like second counts; the calendar
//! reconstruction is delegated to the `chrono` crate.

use vstd::prelude::*;
use chrono::{Datelike, Timelike};

verus! {

/// The civil calendar date and time that a stored second count denotes, as
/// the six parts year, month, day, hour, minute, second. The outside
/// calendar conversion computes it; it is a function of the seconds alone.
pub uninterp spec fn civil_of_epoch(secs: int) -> Seq<int>;

/// A calendar date and time in the proleptic Gregorian calendar, as plain
/// numbers.
#[derive(Clone, Copy, Debug, PartialEq, Eq, Structural)]
pub struct CivilTime {
    /// The calendar year.
    pub year: i32,
    /// The month, 1–12.
    pub month: u32,
    /// The day of the month, 1–31.
    pub day: u32,
    /// The hour, 0–23.
    pub hour: u32,
    /// The minute, 0–59.
    pub minute: u32,
    /// The second, 0–59.
    pub second: u32,
}

/// The six parts of a civil time, in the order of [`civil_of_epoch`].
pub open spec fn civil_parts(c: CivilTime) -> Seq<int> {
    seq![
        c.year as int,
        c.month as int,
        c.day as int,
        c.hour as int,
        c.minute as int,
        c.second as int,
    ]
}

/// Relies on `chrono::DateTime::<Utc>::from_timestamp` and the `Datelike` /
/// `Timelike` accessors: the civil date is a pure function of the second
/// count, `Some` within the documented representable range (every second
/// count through the year 9999 lies far inside chrono's ±262000-year
/// calendar), and `None` only outside it.
#[verifier::external_body]
fn civil_from_epoch(secs: i64) -> (r: Option<CivilTime>)
    ensures
        r matches Some(c) ==> civil_parts(c) == civil_of_epoch(secs as int),
        0 <= secs <= 253_402_300_799 ==> r is Some,
{
    match chrono::DateTime::<chrono::Utc>::from_timestamp(secs, 0) {
        Some(dt) => Some(
            CivilTime {
                year: dt.year(),
                month: dt.month(),
                day: dt.day(),
                hour: dt.hour(),
                minute: dt.minute(),
                second: dt.second(),
            },
        ),
        None => None,
    }
}

/// A save timestamp: a count of seconds since the epoch, as stored in the
/// image (zero-extended when the save version stores only 32 bits).
#[derive(Clone, Copy, Debug, PartialEq, Eq, Structural)]
pub struct Timestamp(pub i64);

impl Timestamp {
    /// The raw second count.
    pub fn epoch_seconds(&self) -> (r: i64)
        ensures
            r == self.0,
    {
        self.0
    }

    /// The calendar date and time this timestamp denotes, or nothing when
    /// the second count lies outside the calendar's representable range.
    pub fn civil(&self) -> (r: Option<CivilTime>)
        ensures
            r matches Some(c) ==> civil_parts(c) == civil_of_epoch(self.0 as int),
            0 <= self.0 <= 253_402_300_799 ==> r is Some,
    {
        civil_from_epoch(self.0)
    }
}

} // verus!
