//! Conversion of a stored calendar interval to a duration.
use vstd::prelude::*;

verus! {

/// Microseconds in a day.
pub const MICROS_PER_DAY: i64 = 86_400_000_000;

/// Days counted for a month of an interval.
pub const DAYS_PER_MONTH: i64 = 30;

/// A calendar interval as the database stores it: months, days and
/// microseconds, each of either sign.
#[derive(Debug, Clone, Copy, PartialEq, Eq, Structural)]
pub struct PgInterval {
    pub months: i32,
    pub days: i32,
    pub microseconds: i64,
}

/// The length of an interval in microseconds, a month counted as 30 days.
pub open spec fn interval_micros(interval: PgInterval) -> int {
    interval.months * DAYS_PER_MONTH * MICROS_PER_DAY + interval.days * MICROS_PER_DAY
        + interval.microseconds
}

/// The length of `interval` in microseconds, a month counted as 30 days;
/// `None` when it does not fit in an `i64`.
pub fn pg_interval_to_duration(interval: PgInterval) -> (r: Option<i64>)
    ensures
        r == (if i64::MIN <= interval_micros(interval) <= i64::MAX {
            Some(interval_micros(interval) as i64)
        } else {
            None::<i64>
        }),
{
    let months: i128 = interval.months as i128;
    let days: i128 = interval.days as i128;
    assert(-0x8000_0000 * 2_592_000_000_000 <= months * 2_592_000_000_000 <= 0x8000_0000
        * 2_592_000_000_000) by (nonlinear_arith)
        requires
            -0x8000_0000 <= months <= 0x8000_0000,
    ;
    assert(-0x8000_0000 * 86_400_000_000 <= days * 86_400_000_000 <= 0x8000_0000
        * 86_400_000_000) by (nonlinear_arith)
        requires
            -0x8000_0000 <= days <= 0x8000_0000,
    ;
    let total: i128 = months * 2_592_000_000_000 + days * 86_400_000_000
        + interval.microseconds as i128;
    if total < i64::MIN as i128 || total > i64::MAX as i128 {
        None
    } else {
        Some(total as i64)
    }
}

} // verus!
