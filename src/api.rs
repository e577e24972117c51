//! Request and response bodies of the HTTP interface, and the errors it
//! reports, with their messages and status codes.
use vstd::prelude::*;

use crate::system::{SystemRecord, Visibility, MICROS_PER_MINUTE};
use crate::timeline::Instant;
use crate::users::User;

verus! {

/// Answer to a login attempt.
#[derive(Debug, Clone)]
pub struct LoginResponse {
    pub status: String,
}

/// Answer to a logout.
#[derive(Debug, Clone)]
pub struct LogoutResponse {
    pub status: String,
}

/// Answer of the protected probe route.
#[derive(Debug, Clone)]
pub struct Protected {
    pub status: String,
}

/// Whether the caller is logged in.
#[derive(Debug, Clone, Copy, PartialEq, Eq, Structural)]
pub enum LoginStatus {
    LoggedIn,
    LoggedOut,
}

/// The login status of the caller, with its email when logged in.
#[derive(Debug, Clone)]
pub struct LoginStatusResponse {
    pub status: LoginStatus,
    pub email: Option<String>,
}

impl LoginStatusResponse {
    /// The status of a caller whose session holds `user`.
    pub fn of_session(user: Option<&User>) -> (r: LoginStatusResponse)
        ensures
            user is Some ==> r.status == LoginStatus::LoggedIn && r.email == Some(
                user->Some_0.email,
            ),
            user is None ==> r.status == LoginStatus::LoggedOut && r.email is None,
    {
        match user {
            Some(u) => LoginStatusResponse { status: LoginStatus::LoggedIn, email: Some(u.email.clone()) },
            None => LoginStatusResponse { status: LoginStatus::LoggedOut, email: None },
        }
    }
}

/// The email of the caller, when logged in.
#[derive(Debug, Clone)]
pub struct UserInfoResponse {
    pub email: Option<String>,
}

impl UserInfoResponse {
    /// The information about a caller whose session holds `user`.
    pub fn of_session(user: Option<&User>) -> (r: UserInfoResponse)
        ensures
            user is Some ==> r.email == Some(user->Some_0.email),
            user is None ==> r.email is None,
    {
        match user {
            Some(u) => UserInfoResponse { email: Some(u.email.clone()) },
            None => UserInfoResponse { email: None },
        }
    }
}

/// The settings of the caller.
#[derive(Debug, Clone)]
pub struct GetCurrentSettingsResponse {
    /// IANA time zone name.
    pub timezone: String,
    /// IETF language tag.
    pub language: String,
}

/// Pagination of the timelines of the caller's systems.
#[derive(Debug, Clone, Copy, PartialEq, Eq, Structural)]
pub struct ListSystemsQuery {
    pub page: i64,
    pub list_size: i64,
}

/// Pagination of the timeline of a public system.
#[derive(Debug, Clone, Copy, PartialEq, Eq, Structural)]
pub struct GetPublicQuery {
    pub list_size: i64,
    pub page: i64,
}

/// A system with one page of its timeline.
#[derive(Debug, Clone)]
pub struct SystemData {
    pub id: u128,
    pub name: String,
    /// The page of the timeline, ascending.
    pub instants: Vec<Instant>,
    /// The frequency in whole minutes.
    pub frequency: i64,
    /// The start of monitoring, in microseconds.
    pub starts_at: i64,
    pub visibility: Visibility,
}

impl SystemData {
    /// A system with one page of its timeline; the frequency is given in
    /// whole minutes, rounded down.
    pub fn from_record(record: &SystemRecord, instants: Vec<Instant>) -> (r: SystemData)
        ensures
            r.id == record.id,
            r.name == record.name,
            r.instants == instants,
            r.frequency == record.frequency / MICROS_PER_MINUTE,
            r.starts_at == record.starts_at,
            r.visibility == record.visibility,
    {
        SystemData {
            id: record.id,
            name: record.name.clone(),
            instants,
            frequency: record.frequency.checked_div_euclid(MICROS_PER_MINUTE).unwrap(),
            starts_at: record.starts_at,
            visibility: record.visibility,
        }
    }
}

/// The caller's systems with their timelines.
#[derive(Debug, Clone)]
pub struct ListSystemsResponse {
    pub systems: Vec<SystemData>,
}

/// A public system with its timeline.
#[derive(Debug, Clone)]
pub struct GetPublicResponse {
    pub system: SystemData,
}

/// Request to change the caller's language.
#[derive(Debug, Clone)]
pub struct ChangeLanguageRequest {
    /// IETF language tag.
    pub language: String,
}

/// Request to change the caller's password.
#[derive(Debug, Clone)]
pub struct ChangePasswordRequest {
    pub old_password: String,
    pub new_password: String,
}

/// Request to change the caller's time zone.
#[derive(Debug, Clone)]
pub struct ChangeTimezoneRequest {
    /// IANA time zone name.
    pub timezone: String,
}

/// Why a language change failed.
#[derive(Debug, Clone, Copy, PartialEq, Eq, Structural)]
pub enum ChangeLanguageError {
    UserNotLoggedIn,
    LanguageNotValid,
    FailedToUpdateLanguage,
}

impl ChangeLanguageError {
    /// Human readable description of the error.
    pub fn message(&self) -> (r: &'static str)
        ensures
            r@ == match self {
                ChangeLanguageError::UserNotLoggedIn => "User is not logged in"@,
                ChangeLanguageError::LanguageNotValid => "Language is not valid"@,
                ChangeLanguageError::FailedToUpdateLanguage => "Failed to update language"@,
            },
    {
        proof {
            reveal_strlit("User is not logged in");
            reveal_strlit("Language is not valid");
            reveal_strlit("Failed to update language");
        }
        match self {
            ChangeLanguageError::UserNotLoggedIn => "User is not logged in",
            ChangeLanguageError::LanguageNotValid => "Language is not valid",
            ChangeLanguageError::FailedToUpdateLanguage => "Failed to update language",
        }
    }

    /// The HTTP status code that reports the error.
    pub fn status_code(&self) -> (r: u16)
        ensures
            r == match self {
                ChangeLanguageError::UserNotLoggedIn => 401u16,
                ChangeLanguageError::LanguageNotValid => 400u16,
                ChangeLanguageError::FailedToUpdateLanguage => 500u16,
            },
    {
        match self {
            ChangeLanguageError::UserNotLoggedIn => 401,
            ChangeLanguageError::LanguageNotValid => 400,
            ChangeLanguageError::FailedToUpdateLanguage => 500,
        }
    }
}

/// Why a password change failed.
#[derive(Debug, Clone, Copy, PartialEq, Eq, Structural)]
pub enum ChangePasswordError {
    FailedToGenerateHash,
    UserNotLoggedIn,
    OldPasswordIsWrong,
    FailedToAuthenticateWithOldPassword,
    FailedToUpdatePassword,
}

impl ChangePasswordError {
    /// Human readable description of the error.
    pub fn message(&self) -> (r: &'static str)
        ensures
            r@ == match self {
                ChangePasswordError::FailedToGenerateHash => "Failed to generate hash"@,
                ChangePasswordError::UserNotLoggedIn => "User is not logged in"@,
                ChangePasswordError::OldPasswordIsWrong => "Old password is wrong"@,
                ChangePasswordError::FailedToAuthenticateWithOldPassword => "Failed to authenticate with old password"@,
                ChangePasswordError::FailedToUpdatePassword => "Failed to update password"@,
            },
    {
        proof {
            reveal_strlit("Failed to generate hash");
            reveal_strlit("User is not logged in");
            reveal_strlit("Old password is wrong");
            reveal_strlit("Failed to authenticate with old password");
            reveal_strlit("Failed to update password");
        }
        match self {
            ChangePasswordError::FailedToGenerateHash => "Failed to generate hash",
            ChangePasswordError::UserNotLoggedIn => "User is not logged in",
            ChangePasswordError::OldPasswordIsWrong => "Old password is wrong",
            ChangePasswordError::FailedToAuthenticateWithOldPassword => "Failed to authenticate with old password",
            ChangePasswordError::FailedToUpdatePassword => "Failed to update password",
        }
    }

    /// The HTTP status code that reports the error.
    pub fn status_code(&self) -> (r: u16)
        ensures
            r == match self {
                ChangePasswordError::UserNotLoggedIn => 401u16,
                ChangePasswordError::OldPasswordIsWrong => 403u16,
                _ => 500u16,
            },
    {
        match self {
            ChangePasswordError::UserNotLoggedIn => 401,
            ChangePasswordError::OldPasswordIsWrong => 403,
            _ => 500,
        }
    }
}

/// Why a time zone change failed.
#[derive(Debug, Clone, Copy, PartialEq, Eq, Structural)]
pub enum ChangeTimezoneError {
    UserNotLoggedIn,
    TimeZoneNotValid,
    FailedToUpdateTimezone,
}

impl ChangeTimezoneError {
    /// Human readable description of the error.
    pub fn message(&self) -> (r: &'static str)
        ensures
            r@ == match self {
                ChangeTimezoneError::UserNotLoggedIn => "User is not logged in"@,
                ChangeTimezoneError::TimeZoneNotValid => "Timezone not valid"@,
                ChangeTimezoneError::FailedToUpdateTimezone => "Failed to update timezone"@,
            },
    {
        proof {
            reveal_strlit("User is not logged in");
            reveal_strlit("Timezone not valid");
            reveal_strlit("Failed to update timezone");
        }
        match self {
            ChangeTimezoneError::UserNotLoggedIn => "User is not logged in",
            ChangeTimezoneError::TimeZoneNotValid => "Timezone not valid",
            ChangeTimezoneError::FailedToUpdateTimezone => "Failed to update timezone",
        }
    }

    /// The HTTP status code that reports the error.
    pub fn status_code(&self) -> (r: u16)
        ensures
            r == match self {
                ChangeTimezoneError::UserNotLoggedIn => 401u16,
                ChangeTimezoneError::TimeZoneNotValid => 400u16,
                ChangeTimezoneError::FailedToUpdateTimezone => 500u16,
            },
    {
        match self {
            ChangeTimezoneError::UserNotLoggedIn => 401,
            ChangeTimezoneError::TimeZoneNotValid => 400,
            ChangeTimezoneError::FailedToUpdateTimezone => 500,
        }
    }
}

/// Memory figures of the host, formatted.
#[derive(Debug, Clone)]
pub struct MemInfo {
    pub total: String,
    pub free: String,
    pub used: String,
}

/// Swap figures of the host, formatted.
#[derive(Debug, Clone)]
pub struct SwapInfo {
    pub total: String,
    pub free: String,
    pub used: String,
}

/// Identification of the host.
#[derive(Debug, Clone)]
pub struct BasicSystemInfo {
    pub system_name: String,
    pub system_kernel_version: String,
    pub system_os_version: String,
    pub system_host_name: String,
}

} // verus!
