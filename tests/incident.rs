use heartbeat_monitor::dispatch::{compose_email, compose_emails, notification_of};
use heartbeat_monitor::incident::{
    accept_ping, clear_armed, down_since, is_overdue, sweep, try_claim, EmailData, PingError,
};
use heartbeat_monitor::system::{SystemRecord, Visibility};
use heartbeat_monitor::users::User;

const MINUTE: i64 = 60_000_000;
const T0: i64 = 1_700_000_000_000_000;

fn system(frequency: i64, down_after: i64) -> SystemRecord {
    SystemRecord {
        id: 42,
        name: "backup job".to_string(),
        user_id: 7,
        frequency,
        starts_at: T0,
        deleted: false,
        down_after,
        down_sent_email: false,
        visibility: Visibility::Public,
    }
}

fn owner() -> User {
    User {
        id: 7,
        email: "owner@example.com".to_string(),
        password: "hash".to_string(),
        timezone: "Europe/Rome".to_string(),
        language: "it".to_string(),
    }
}

#[test]
fn overdue_system_is_claimed_with_down_since() {
    let mut s = system(30 * MINUTE, 60 * MINUTE);
    let last = Some(T0 + 30 * MINUTE);
    let now = T0 + 95 * MINUTE;
    assert!(is_overdue(&s, last, now));
    let snapshot = try_claim(&mut s, &owner(), last, now).unwrap();
    assert_eq!(snapshot.utc_timestamp, T0 + 90 * MINUTE);
    assert_eq!(snapshot.system_id, 42);
    assert_eq!(snapshot.down_after, 60 * MINUTE);
    assert_eq!(snapshot.system_name, "backup job");
    assert_eq!(snapshot.user_email, "owner@example.com");
    assert_eq!(snapshot.timezone, "Europe/Rome");
    assert_eq!(snapshot.language, "it");
    assert!(s.down_sent_email);
}

#[test]
fn not_overdue_within_grace_window() {
    let mut s = system(30 * MINUTE, 60 * MINUTE);
    let last = Some(T0 + 30 * MINUTE);
    assert!(!is_overdue(&s, last, T0 + 90 * MINUTE));
    assert!(try_claim(&mut s, &owner(), last, T0 + 90 * MINUTE).is_none());
    assert!(!s.down_sent_email);
}

#[test]
fn never_pinged_system_counts_from_start() {
    let mut s = system(30 * MINUTE, 60 * MINUTE);
    assert!(!is_overdue(&s, None, T0 + 60 * MINUTE));
    assert!(is_overdue(&s, None, T0 + 61 * MINUTE));
    let snapshot = try_claim(&mut s, &owner(), None, T0 + 61 * MINUTE).unwrap();
    assert_eq!(snapshot.utc_timestamp, T0 + 60 * MINUTE);
}

#[test]
fn two_sweeps_claim_once() {
    let mut systems = vec![system(30 * MINUTE, 60 * MINUTE)];
    let owners = vec![owner()];
    let last = vec![Some(T0 + 30 * MINUTE)];
    let first = sweep(&mut systems, &owners, &last, T0 + 95 * MINUTE);
    let second = sweep(&mut systems, &owners, &last, T0 + 96 * MINUTE);
    assert_eq!(first.len() + second.len(), 1);
    assert_eq!(first.len(), 1);
    let notifications = compose_emails(&first);
    assert_eq!(notifications.len(), 1);
    assert!(compose_emails(&second).is_empty());
}

#[test]
fn sweep_claims_only_eligible_systems_in_order() {
    let mut deleted = system(30 * MINUTE, 60 * MINUTE);
    deleted.deleted = true;
    let mut alerted = system(30 * MINUTE, 60 * MINUTE);
    alerted.down_sent_email = true;
    let mut healthy = system(30 * MINUTE, 60 * MINUTE);
    healthy.id = 1;
    let mut overdue = system(30 * MINUTE, 60 * MINUTE);
    overdue.id = 2;
    let mut no_cadence = system(0, 60 * MINUTE);
    no_cadence.id = 3;
    let mut overdue_too = system(30 * MINUTE, 10 * MINUTE);
    overdue_too.id = 4;
    let mut systems = vec![deleted, alerted, healthy, overdue, no_cadence, overdue_too];
    let owners = vec![owner(), owner(), owner(), owner(), owner(), owner()];
    let now = T0 + 200 * MINUTE;
    let last = vec![None, None, Some(now - MINUTE), None, None, Some(now - 11 * MINUTE)];
    let claimed = sweep(&mut systems, &owners, &last, now);
    let ids: Vec<u128> = claimed.iter().map(|e| e.system_id).collect();
    assert_eq!(ids, vec![2, 4]);
    let flags: Vec<bool> = systems.iter().map(|s| s.down_sent_email).collect();
    assert_eq!(flags, vec![false, true, false, true, false, true]);
}

#[test]
fn ping_rearms_detection() {
    let mut s = system(30 * MINUTE, 60 * MINUTE);
    let now = T0 + 95 * MINUTE;
    assert!(try_claim(&mut s, &owner(), Some(T0 + 30 * MINUTE), now).is_some());
    assert_eq!(accept_ping(&mut s), Ok(()));
    assert!(!s.down_sent_email);
    // The new ping closes the gap: no claim until the grace window passes again.
    let ping = T0 + 100 * MINUTE;
    assert!(try_claim(&mut s, &owner(), Some(ping), T0 + 150 * MINUTE).is_none());
    assert!(!s.down_sent_email);
    let again = try_claim(&mut s, &owner(), Some(ping), T0 + 161 * MINUTE).unwrap();
    assert_eq!(again.utc_timestamp, T0 + 150 * MINUTE);
}

#[test]
fn reset_is_idempotent() {
    let mut s = system(30 * MINUTE, 60 * MINUTE);
    clear_armed(&mut s);
    assert!(!s.down_sent_email);
    s.down_sent_email = true;
    clear_armed(&mut s);
    clear_armed(&mut s);
    assert!(!s.down_sent_email);
}

#[test]
fn ping_for_deleted_system_is_refused() {
    let mut s = system(30 * MINUTE, 60 * MINUTE);
    s.deleted = true;
    s.down_sent_email = true;
    assert_eq!(accept_ping(&mut s), Err(PingError::SystemNotFound));
    assert!(s.down_sent_email);
}

#[test]
fn down_since_needs_valid_frequency() {
    let s = system(0, 60 * MINUTE);
    assert_eq!(down_since(&s, Some(T0)), None);
    let s = system(30 * MINUTE, 60 * MINUTE);
    assert_eq!(down_since(&s, Some(T0 + 31 * MINUTE)), Some(T0 + 90 * MINUTE));
    let mut far = system(30 * MINUTE, i64::MAX);
    far.starts_at = 0;
    assert_eq!(down_since(&far, Some(1)), Some(i64::MAX));
    assert_eq!(down_since(&far, Some(30 * MINUTE)), None);
}

#[test]
fn negative_grace_window_is_never_claimed() {
    let mut s = system(30 * MINUTE, -1);
    assert!(is_overdue(&s, Some(T0), T0));
    assert!(try_claim(&mut s, &owner(), Some(T0), T0 + 500 * MINUTE).is_none());
}

#[test]
fn notification_describes_the_outage() {
    let e = EmailData {
        system_id: 9,
        utc_timestamp: T0 + 90 * MINUTE,
        down_after: 90 * MINUTE,
        system_name: "db".to_string(),
        user_email: "a@b.c".to_string(),
        timezone: "UTC".to_string(),
        language: "en".to_string(),
    };
    let n = compose_email(&e);
    assert_eq!(n.system_id, 9);
    assert_eq!(n.recipient, "a@b.c");
    assert_eq!(n.system_name, "db");
    assert_eq!(n.down_since, T0 + 90 * MINUTE);
    assert_eq!(n.down_after, "1h 30m");
    assert_eq!(n.timezone, "UTC");
    assert_eq!(n.language, "en");
    let e2 = EmailData { down_after: 60 * MINUTE, ..e };
    assert_eq!(compose_email(&e2).down_after, "1h");
}

#[test]
fn notification_carries_given_text() {
    let e = EmailData {
        system_id: 3,
        utc_timestamp: 77,
        down_after: 5,
        system_name: "queue".to_string(),
        user_email: "q@r.s".to_string(),
        timezone: "Asia/Tokyo".to_string(),
        language: "ja".to_string(),
    };
    let n = notification_of(&e, "two hours".to_string());
    assert_eq!(n.down_after, "two hours");
    assert_eq!(n.system_id, 3);
    assert_eq!(n.down_since, 77);
    assert_eq!(n.recipient, "q@r.s");
    assert_eq!(n.system_name, "queue");
    assert_eq!(n.timezone, "Asia/Tokyo");
    assert_eq!(n.language, "ja");
}
