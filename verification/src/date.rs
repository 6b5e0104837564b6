//! A calendar date as plain values. The database layer decodes its own date
//! type at the application edge and hands the library this record.
use vstd::prelude::*;

verus! {

/// A calendar date: year, month and day as the database stores them.
#[derive(Clone, Copy, Debug, PartialEq, Eq, Structural)]
pub struct Date {
    pub year: i32,
    pub month: u8,
    pub day: u8,
}

impl Date {
    /// A date the calendar can hold at all.
    pub open spec fn wf(self) -> bool {
        &&& 1 <= self.month <= 12
        &&& 1 <= self.day <= 31
    }

    pub fn new(year: i32, month: u8, day: u8) -> (r: Self)
        requires
            1 <= month <= 12,
            1 <= day <= 31,
        ensures
            r == (Date { year, month, day }),
            r.wf(),
    {
        Date { year, month, day }
    }
}

} // verus!
