//! Validation of the user settings that the monitoring core relies on.
use std::str::FromStr;
use vstd::prelude::*;

use crate::api::{ChangeTimezoneError, ChangeTimezoneRequest};

verus! {

/// The name is a zone of the IANA time zone database as bundled.
pub uninterp spec fn known_timezone(name: Seq<char>) -> bool;

/// Relies on `FromStr` of chrono_tz::Tz: a name parses exactly when it is a
/// zone of the bundled database.
#[verifier::external_body]
fn is_known_timezone(name: &str) -> (r: bool)
    ensures
        r == known_timezone(name@),
{
    chrono_tz::Tz::from_str(name).is_ok()
}

/// The time zone to store for a change request, given whether its name is a
/// known zone.
pub fn timezone_choice(request: &ChangeTimezoneRequest, known: bool) -> (r: Result<
    String,
    ChangeTimezoneError,
>)
    ensures
        known ==> r is Ok && r->Ok_0@ == request.timezone@,
        !known ==> r == Err::<String, ChangeTimezoneError>(ChangeTimezoneError::TimeZoneNotValid),
{
    if known {
        Ok(request.timezone.clone())
    } else {
        Err(ChangeTimezoneError::TimeZoneNotValid)
    }
}

/// The time zone to store for a change request: its name when that is a
/// known zone, else `TimeZoneNotValid`.
pub fn validate_timezone(request: &ChangeTimezoneRequest) -> (r: Result<String, ChangeTimezoneError>)
    ensures
        known_timezone(request.timezone@) ==> r is Ok && r->Ok_0@ == request.timezone@,
        !known_timezone(request.timezone@) ==> r == Err::<String, ChangeTimezoneError>(
            ChangeTimezoneError::TimeZoneNotValid,
        ),
{
    let known = is_known_timezone(request.timezone.as_str());
    timezone_choice(request, known)
}

} // verus!
