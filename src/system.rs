//! The stored configuration and alert state of a monitored system.
use vstd::prelude::*;

verus! {

/// Who may see a system's timeline.
#[derive(Debug, Clone, Copy, PartialEq, Eq, Structural)]
pub enum Visibility {
    Public,
    Private,
}

/// A monitored system as stored. Instants and durations are in microseconds.
#[derive(Debug, Clone)]
pub struct SystemRecord {
    pub id: u128,
    pub name: String,
    /// The owner of the system.
    pub user_id: i32,
    /// The expected interval between two pings (must be positive).
    pub frequency: i64,
    /// The instant from which pings are expected: the anchor of the grid.
    pub starts_at: i64,
    /// Soft deletion: a deleted system is left out of all processing.
    pub deleted: bool,
    /// How long a system may stay silent before it counts as down (at least zero).
    pub down_after: i64,
    /// Set while an outage of the system has already been claimed for alerting.
    pub down_sent_email: bool,
    pub visibility: Visibility,
}

impl SystemRecord {
    /// The invariant of a stored system: a positive frequency and a grace
    /// window of at least zero.
    pub open spec fn wf(&self) -> bool {
        self.frequency > 0 && self.down_after >= 0
    }
}

/// Microseconds in a minute.
pub const MICROS_PER_MINUTE: i64 = 60_000_000;

/// A request to register a system; durations in whole minutes, the start in
/// microseconds.
#[derive(Debug, Clone)]
pub struct AddSystemRequest {
    pub name: String,
    pub frequency: i64,
    pub starts_at: i64,
    pub down_after: i64,
    pub visibility: Visibility,
}

/// The id given to a registered system.
#[derive(Debug, Clone, Copy, PartialEq, Eq, Structural)]
pub struct AddSystemResponse {
    pub id: u128,
}

/// Why a registration was refused.
#[derive(Debug, Clone, Copy, PartialEq, Eq, Structural)]
pub enum AddSystemError {
    /// The frequency is not positive or too large.
    InvalidFrequency,
    /// The grace window is negative or too large.
    InvalidDownAfter,
}

/// The microseconds in `minutes` minutes, when they fit in an `i64`.
pub open spec fn minutes_in_micros(minutes: int) -> Option<i64> {
    if i64::MIN <= minutes * MICROS_PER_MINUTE <= i64::MAX {
        Some((minutes * MICROS_PER_MINUTE) as i64)
    } else {
        None
    }
}

/// `minutes` minutes in microseconds, or `None` when they do not fit in an
/// `i64`.
pub fn minutes_to_micros(minutes: i64) -> (r: Option<i64>)
    ensures
        r == minutes_in_micros(minutes as int),
{
    minutes.checked_mul(MICROS_PER_MINUTE)
}

/// The record of a newly registered system with id `id`, owned by
/// `user_id`: active, not alerted, and well formed.
pub fn create_system(request: &AddSystemRequest, id: u128, user_id: i32) -> (r: Result<
    SystemRecord,
    AddSystemError,
>)
    ensures
        ({
            let f = minutes_in_micros(request.frequency as int);
            let d = minutes_in_micros(request.down_after as int);
            &&& (f is None || request.frequency <= 0) ==> r == Err::<SystemRecord, AddSystemError>(
                AddSystemError::InvalidFrequency,
            )
            &&& (f is Some && request.frequency > 0 && (d is None || request.down_after < 0))
                ==> r == Err::<SystemRecord, AddSystemError>(AddSystemError::InvalidDownAfter)
            &&& (f is Some && request.frequency > 0 && d is Some && request.down_after >= 0) ==> {
                &&& r is Ok
                &&& r->Ok_0.wf()
                &&& r->Ok_0.id == id
                &&& r->Ok_0.name@ == request.name@
                &&& r->Ok_0.user_id == user_id
                &&& r->Ok_0.frequency == f->Some_0
                &&& r->Ok_0.starts_at == request.starts_at
                &&& !r->Ok_0.deleted
                &&& r->Ok_0.down_after == d->Some_0
                &&& !r->Ok_0.down_sent_email
                &&& r->Ok_0.visibility == request.visibility
            }
        }),
{
    let frequency = match minutes_to_micros(request.frequency) {
        Some(f) => f,
        None => {
            return Err(AddSystemError::InvalidFrequency);
        },
    };
    if request.frequency <= 0 {
        return Err(AddSystemError::InvalidFrequency);
    }
    let down_after = match minutes_to_micros(request.down_after) {
        Some(d) => d,
        None => {
            return Err(AddSystemError::InvalidDownAfter);
        },
    };
    if request.down_after < 0 {
        return Err(AddSystemError::InvalidDownAfter);
    }
    Ok(
        SystemRecord {
            id,
            name: request.name.clone(),
            user_id,
            frequency,
            starts_at: request.starts_at,
            deleted: false,
            down_after,
            down_sent_email: false,
            visibility: request.visibility,
        },
    )
}

} // verus!
