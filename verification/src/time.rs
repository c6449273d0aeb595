//! A wall-clock instant broken into plain calendar fields, and the one
//! trusted call that produces the current instant.

use vstd::prelude::*;

use chrono::{Datelike, Timelike};

verus! {

/// A local wall-clock instant as plain calendar fields.
#[derive(Clone, Copy, Debug, PartialEq, Eq, Structural)]
pub struct LocalTime {
    pub year: i32,
    pub month: u8,
    pub day: u8,
    pub hour: u8,
    pub minute: u8,
    pub second: u8,
}

impl LocalTime {
    /// Field ranges of a real calendar instant.
    pub open spec fn valid(self) -> bool {
        &&& 1 <= self.month <= 12
        &&& 1 <= self.day <= 31
        &&& self.hour <= 23
        &&& self.minute <= 59
        &&& self.second <= 59
    }
}

/// Relies on chrono: `Local::now` and the `Datelike`/`Timelike`
/// accessors, whose documentation bounds month by 1..=12, day by 1..=31,
/// hour by 0..=23 and minute and second by 0..=59.
#[verifier::external_body]
pub(crate) fn now_local() -> (t: LocalTime)
    ensures
        t.valid(),
{
    let now = chrono::Local::now();
    LocalTime {
        year: now.year(),
        month: now.month() as u8,
        day: now.day() as u8,
        hour: now.hour() as u8,
        minute: now.minute() as u8,
        second: now.second() as u8,
    }
}

} // verus!
