use heartbeat_monitor::api::{
    ChangeLanguageError, ChangePasswordError, ChangeTimezoneError, ChangeTimezoneRequest,
    LoginStatus, LoginStatusResponse, SystemData, UserInfoResponse,
};
use heartbeat_monitor::date_time::{
    from_offset_date_time_to_primitive_date_time, Date, OffsetDateTime, Time, UtcOffset,
};
use heartbeat_monitor::interval::{pg_interval_to_duration, PgInterval};
use heartbeat_monitor::settings::{timezone_choice, validate_timezone};
use heartbeat_monitor::system::{
    create_system, minutes_to_micros, AddSystemError, AddSystemRequest, SystemRecord, Visibility,
};
use heartbeat_monitor::users::User;

#[test]
fn interval_counts_months_as_thirty_days() {
    let i = PgInterval { months: 1, days: 2, microseconds: 3 };
    assert_eq!(pg_interval_to_duration(i), Some(32 * 86_400_000_000 + 3));
    let i = PgInterval { months: 0, days: 0, microseconds: 15 * 60_000_000 };
    assert_eq!(pg_interval_to_duration(i), Some(900_000_000));
    let i = PgInterval { months: -1, days: 0, microseconds: 0 };
    assert_eq!(pg_interval_to_duration(i), Some(-30 * 86_400_000_000));
    let i = PgInterval { months: i32::MAX, days: 0, microseconds: 0 };
    assert_eq!(pg_interval_to_duration(i), None);
}

#[test]
fn offset_is_dropped() {
    let odt = OffsetDateTime {
        date: Date { year: 2024, ordinal: 60 },
        time: Time { hour: 13, minute: 5, second: 9, nanosecond: 7 },
        offset: UtcOffset { hours: 2, minutes: 0, seconds: 0 },
    };
    let p = from_offset_date_time_to_primitive_date_time(odt);
    assert_eq!(p.date, odt.date);
    assert_eq!(p.time, odt.time);
}

#[test]
fn timezone_names_are_checked() {
    let ok = ChangeTimezoneRequest { timezone: "Europe/Rome".to_string() };
    assert_eq!(validate_timezone(&ok), Ok("Europe/Rome".to_string()));
    let bad = ChangeTimezoneRequest { timezone: "Mars/Olympus".to_string() };
    assert_eq!(validate_timezone(&bad), Err(ChangeTimezoneError::TimeZoneNotValid));
    assert_eq!(timezone_choice(&bad, true), Ok("Mars/Olympus".to_string()));
    assert_eq!(timezone_choice(&ok, false), Err(ChangeTimezoneError::TimeZoneNotValid));
}

#[test]
fn error_codes_and_messages() {
    assert_eq!(ChangeTimezoneError::UserNotLoggedIn.status_code(), 401);
    assert_eq!(ChangeTimezoneError::TimeZoneNotValid.status_code(), 400);
    assert_eq!(ChangeTimezoneError::TimeZoneNotValid.message(), "Timezone not valid");
    assert_eq!(ChangeLanguageError::LanguageNotValid.status_code(), 400);
    assert_eq!(ChangeLanguageError::FailedToUpdateLanguage.status_code(), 500);
    assert_eq!(ChangePasswordError::OldPasswordIsWrong.status_code(), 403);
    assert_eq!(ChangePasswordError::FailedToGenerateHash.status_code(), 500);
    assert_eq!(ChangePasswordError::OldPasswordIsWrong.message(), "Old password is wrong");
}

#[test]
fn session_views() {
    let u = User {
        id: 1,
        email: "x@y.z".to_string(),
        password: "h".to_string(),
        timezone: "UTC".to_string(),
        language: "en".to_string(),
    };
    let r = LoginStatusResponse::of_session(Some(&u));
    assert_eq!(r.status, LoginStatus::LoggedIn);
    assert_eq!(r.email, Some("x@y.z".to_string()));
    let r = LoginStatusResponse::of_session(None);
    assert_eq!(r.status, LoginStatus::LoggedOut);
    assert_eq!(r.email, None);
    assert_eq!(UserInfoResponse::of_session(Some(&u)).email, Some("x@y.z".to_string()));
    assert_eq!(UserInfoResponse::of_session(None).email, None);
}

#[test]
fn system_data_reports_minutes() {
    let record = SystemRecord {
        id: 5,
        name: "web".to_string(),
        user_id: 1,
        frequency: 90 * 60_000_000 + 59_999_999,
        starts_at: 123,
        deleted: false,
        down_after: 0,
        down_sent_email: false,
        visibility: Visibility::Public,
    };
    let d = SystemData::from_record(&record, vec![]);
    assert_eq!(d.frequency, 90);
    assert_eq!(d.id, 5);
    assert_eq!(d.name, "web");
    assert_eq!(d.starts_at, 123);
    assert_eq!(d.visibility, Visibility::Public);
    assert!(d.instants.is_empty());
}

#[test]
fn registration_establishes_the_invariant() {
    let request = AddSystemRequest {
        name: "cron".to_string(),
        frequency: 15,
        starts_at: 1_000,
        down_after: 0,
        visibility: Visibility::Private,
    };
    let s = create_system(&request, 77, 3).unwrap();
    assert_eq!(s.id, 77);
    assert_eq!(s.user_id, 3);
    assert_eq!(s.name, "cron");
    assert_eq!(s.frequency, 15 * 60_000_000);
    assert_eq!(s.down_after, 0);
    assert_eq!(s.starts_at, 1_000);
    assert!(!s.deleted);
    assert!(!s.down_sent_email);
    assert_eq!(s.visibility, Visibility::Private);

    let zero = AddSystemRequest { frequency: 0, ..request.clone() };
    assert_eq!(create_system(&zero, 1, 1).unwrap_err(), AddSystemError::InvalidFrequency);
    let huge = AddSystemRequest { frequency: i64::MAX / 1000, ..request.clone() };
    assert_eq!(create_system(&huge, 1, 1).unwrap_err(), AddSystemError::InvalidFrequency);
    let negative = AddSystemRequest { down_after: -1, ..request.clone() };
    assert_eq!(create_system(&negative, 1, 1).unwrap_err(), AddSystemError::InvalidDownAfter);
    let too_long = AddSystemRequest { down_after: i64::MAX, ..request };
    assert_eq!(create_system(&too_long, 1, 1).unwrap_err(), AddSystemError::InvalidDownAfter);
}

#[test]
fn minutes_convert_to_micros() {
    assert_eq!(minutes_to_micros(2), Some(120_000_000));
    assert_eq!(minutes_to_micros(-1), Some(-60_000_000));
    assert_eq!(minutes_to_micros(i64::MAX), None);
}
