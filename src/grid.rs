//! The expectation grid: every monitored system is expected to ping at the
//! instants `starts_at + k * frequency` for integer `k`. Instants and
//! durations are counted in microseconds.
use vstd::arithmetic::div_mod::{lemma_fundamental_div_mod, lemma_div_multiples_vanish};
use vstd::prelude::*;

verus! {

/// Error of a grid computation.
#[derive(Debug, Clone, Copy, PartialEq, Eq, Structural)]
pub enum ApproxError {
    /// The frequency is zero or negative.
    InvalidFrequency,
}

impl ApproxError {
    /// Human readable description of the error.
    pub fn message(&self) -> (r: &'static str)
        ensures
            r@ == "Invalid frequency"@,
    {
        proof {
            reveal_strlit("Invalid frequency");
        }
        "Invalid frequency"
    }
}

/// The latest grid point `starts_at + k * frequency` that is not after `t`
/// (floor division, so instants before `starts_at` get a negative `k`).
pub open spec fn slot_of(t: int, frequency: int, starts_at: int) -> int {
    starts_at + ((t - starts_at) / frequency) * frequency
}

/// The slot of `t` can be held in an `i64` (always the case unless `t` lies
/// within one frequency of `i64::MIN`).
pub open spec fn slot_representable(t: int, frequency: int, starts_at: int) -> bool {
    frequency <= 0 || slot_of(t, frequency, starts_at) >= i64::MIN
}

/// The grid point of `t`, computed without overflow on any pair of `i64`
/// instants and any positive `i64` frequency.
pub(crate) fn slot_wide(t: i64, frequency: i64, starts_at: i64) -> (r: i128)
    requires
        frequency > 0,
    ensures
        r == slot_of(t as int, frequency as int, starts_at as int),
        r <= t,
        t < r + frequency,
{
    let d: i128 = (t as i128) - (starts_at as i128);
    let f: i128 = frequency as i128;
    proof {
        lemma_fundamental_div_mod(d as int, f as int);
        lemma_intervals_bounded(d as int, f as int);
        lemma_slot_brackets(t as int, frequency as int, starts_at as int);
    }
    let k: i128 = d.checked_div_euclid(f).unwrap();
    let r: i128 = (starts_at as i128) + k * f;
    r
}

proof fn lemma_intervals_bounded(d: int, f: int)
    requires
        f > 0,
        -0x2_0000_0000_0000_0000 < d < 0x2_0000_0000_0000_0000,
        f < 0x1_0000_0000_0000_0000,
    ensures
        -0x4_0000_0000_0000_0000 <= d / f < 0x2_0000_0000_0000_0000,
        -0x4_0000_0000_0000_0000 <= (d / f) * f <= 0x2_0000_0000_0000_0000,
{
    let q = d / f;
    lemma_fundamental_div_mod(d, f);
    vstd::arithmetic::div_mod::lemma_mod_bound(d, f);
    assert(q * f == f * q) by (nonlinear_arith);
    if q >= 0 {
        assert(q <= f * q) by (nonlinear_arith)
            requires q >= 0, f >= 1;
    } else {
        assert(f * q <= q) by (nonlinear_arith)
            requires q < 0, f >= 1;
    }
}

/// Rounds `timestamp_to_approx` down to the latest expected timestamp of the
/// grid given by `frequency` and `starts_at`.
pub fn approx_expected_timestamp(timestamp_to_approx: i64, frequency: i64, starts_at: i64) -> (r:
    Result<i64, ApproxError>)
    requires
        slot_representable(timestamp_to_approx as int, frequency as int, starts_at as int),
    ensures
        frequency <= 0 ==> r == Err::<i64, ApproxError>(ApproxError::InvalidFrequency),
        frequency > 0 ==> r == Ok::<i64, ApproxError>(
            slot_of(timestamp_to_approx as int, frequency as int, starts_at as int) as i64,
        ),
{
    if frequency <= 0 {
        return Err(ApproxError::InvalidFrequency);
    }
    let s: i128 = slot_wide(timestamp_to_approx, frequency, starts_at);
    Ok(s as i64)
}

/// The slot of an instant brackets it: `slot <= t < slot + frequency`.
pub proof fn lemma_slot_brackets(t: int, frequency: int, starts_at: int)
    requires
        frequency > 0,
    ensures
        slot_of(t, frequency, starts_at) <= t < slot_of(t, frequency, starts_at) + frequency,
{
    lemma_fundamental_div_mod(t - starts_at, frequency);
    vstd::arithmetic::div_mod::lemma_mod_bound(t - starts_at, frequency);
    assert((t - starts_at) / frequency * frequency == frequency * ((t - starts_at) / frequency))
        by (nonlinear_arith);
}

/// Rounding to the grid is idempotent: a slot is its own slot.
pub proof fn lemma_slot_idempotent(t: int, frequency: int, starts_at: int)
    requires
        frequency > 0,
    ensures
        slot_of(slot_of(t, frequency, starts_at), frequency, starts_at) == slot_of(
            t,
            frequency,
            starts_at,
        ),
{
    let k = (t - starts_at) / frequency;
    assert(slot_of(t, frequency, starts_at) - starts_at == k * frequency);
    lemma_div_multiples_vanish(k, frequency);
    assert(k * frequency == frequency * k) by (nonlinear_arith);
}

} // verus!
