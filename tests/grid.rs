use heartbeat_monitor::grid::{approx_expected_timestamp, ApproxError};

const MINUTE: i64 = 60_000_000;

fn minutes(n: i64) -> i64 {
    n * MINUTE
}

#[test]
fn test_approx_expected_timestamp() {
    let start_at = chrono::Utc::now().naive_utc().and_utc().timestamp_micros();
    let frequency = minutes(30);

    // Timestamp is sufficiently near the expected timestamp
    let timestamp = start_at + minutes(2);
    assert_eq!(
        approx_expected_timestamp(timestamp, frequency, start_at).unwrap(),
        start_at
    );

    // Timestamp is too far from the expected timestamp, approximates to the next one
    let timestamp = start_at + minutes(32);
    assert_eq!(
        approx_expected_timestamp(timestamp, frequency, start_at).unwrap(),
        start_at + minutes(30)
    );

    // The function should only floor the timestamp
    let timestamp = start_at + minutes(59);
    assert_eq!(
        approx_expected_timestamp(timestamp, frequency, start_at).unwrap(),
        start_at + minutes(30)
    );

    // Another case where the function should only floor the timestamp
    let timestamp = start_at + minutes(60);
    assert_eq!(
        approx_expected_timestamp(timestamp, frequency, start_at).unwrap(),
        start_at + minutes(60)
    );

    // Another case where the function should only floor the timestamp
    let timestamp = start_at + minutes(61);
    assert_eq!(
        approx_expected_timestamp(timestamp, frequency, start_at).unwrap(),
        start_at + minutes(60)
    );

    // Negative case: frequency is zero
    let timestamp = start_at + minutes(15);
    assert!(approx_expected_timestamp(timestamp, 0, start_at).is_err());
}

#[test]
fn slot_before_start_floors_to_negative_multiple() {
    let start = minutes(1_000);
    // 1 minute before the start lies in the slot that begins 30 minutes before it.
    assert_eq!(
        approx_expected_timestamp(start - minutes(1), minutes(30), start),
        Ok(start - minutes(30))
    );
    // 31 minutes before the start: two slots back.
    assert_eq!(
        approx_expected_timestamp(start - minutes(31), minutes(30), start),
        Ok(start - minutes(60))
    );
    // Exactly one slot back is its own slot.
    assert_eq!(
        approx_expected_timestamp(start - minutes(30), minutes(30), start),
        Ok(start - minutes(30))
    );
}

#[test]
fn zero_or_negative_frequency_is_invalid() {
    assert_eq!(approx_expected_timestamp(5, 0, 0), Err(ApproxError::InvalidFrequency));
    assert_eq!(approx_expected_timestamp(5, -10, 0), Err(ApproxError::InvalidFrequency));
    assert_eq!(ApproxError::InvalidFrequency.message(), "Invalid frequency");
}

#[test]
fn slot_is_idempotent_and_brackets_the_instant() {
    let cadence = minutes(15);
    let anchor = 7;
    for t in [-minutes(100) + 3, -1, 0, 6, 7, 8, minutes(15) + 6, minutes(15) + 7, minutes(47)] {
        let s = approx_expected_timestamp(t, cadence, anchor).unwrap();
        assert!(s <= t && t < s + cadence);
        assert_eq!((s - anchor).rem_euclid(cadence), 0);
        assert_eq!(approx_expected_timestamp(s, cadence, anchor).unwrap(), s);
    }
}

#[test]
fn slot_near_the_ends_of_the_range() {
    assert_eq!(approx_expected_timestamp(i64::MAX, 10, 0), Ok(i64::MAX - 7));
    assert_eq!(approx_expected_timestamp(i64::MAX, 1, i64::MIN), Ok(i64::MAX));
    assert_eq!(approx_expected_timestamp(i64::MIN + 10, 10, 0), Ok(i64::MIN + 8));
}
