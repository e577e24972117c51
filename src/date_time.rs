//! Calendar date-times, with and without a UTC offset.
use vstd::prelude::*;

verus! {

/// A calendar date: a year and the day of that year (1-based).
#[derive(Debug, Clone, Copy, PartialEq, Eq, Structural)]
pub struct Date {
    pub year: i32,
    pub ordinal: u16,
}

/// A wall-clock time of day.
#[derive(Debug, Clone, Copy, PartialEq, Eq, Structural)]
pub struct Time {
    pub hour: u8,
    pub minute: u8,
    pub second: u8,
    pub nanosecond: u32,
}

/// An offset from UTC.
#[derive(Debug, Clone, Copy, PartialEq, Eq, Structural)]
pub struct UtcOffset {
    pub hours: i8,
    pub minutes: i8,
    pub seconds: i8,
}

/// A date and time of day in a given offset; `date` and `time` are the local
/// ones of that offset.
#[derive(Debug, Clone, Copy, PartialEq, Eq, Structural)]
pub struct OffsetDateTime {
    pub date: Date,
    pub time: Time,
    pub offset: UtcOffset,
}

/// A date and time of day with no offset.
#[derive(Debug, Clone, Copy, PartialEq, Eq, Structural)]
pub struct PrimitiveDateTime {
    pub date: Date,
    pub time: Time,
}

/// Drops the offset, keeping the local date and time of day.
pub fn from_offset_date_time_to_primitive_date_time(offset_date_time: OffsetDateTime) -> (r:
    PrimitiveDateTime)
    ensures
        r.date == offset_date_time.date,
        r.time == offset_date_time.time,
{
    PrimitiveDateTime { date: offset_date_time.date, time: offset_date_time.time }
}

} // verus!
