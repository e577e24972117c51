//! Detection of overdue systems, the atomic claim that marks an outage as
//! alerted, and the reset that a new ping performs.
use vstd::prelude::*;

use crate::grid::{slot_of, slot_wide};
use crate::system::SystemRecord;
use crate::users::User;

verus! {

/// A frozen description of a claimed outage, enough to notify the owner.
#[derive(Debug, Clone)]
pub struct EmailData {
    pub system_id: u128,
    /// The first instant at which the outage was detectable.
    pub utc_timestamp: i64,
    /// The grace window of the system.
    pub down_after: i64,
    pub system_name: String,
    pub user_email: String,
    pub timezone: String,
    pub language: String,
}

/// Why a ping was not accepted.
#[derive(Debug, Clone, Copy, PartialEq, Eq, Structural)]
pub enum PingError {
    /// The system does not exist or was deleted.
    SystemNotFound,
}

/// The instant since which the system has been silent: its latest ping, or
/// the start of monitoring when it never pinged.
pub open spec fn silent_since(system: SystemRecord, last_ping: Option<i64>) -> int {
    match last_ping {
        Some(p) => p as int,
        None => system.starts_at as int,
    }
}

/// The silence has lasted longer than the grace window.
pub open spec fn overdue(system: SystemRecord, last_ping: Option<i64>, now: int) -> bool {
    now - silent_since(system, last_ping) > system.down_after
}

/// The first instant at which the outage was detectable: the slot of the
/// latest ping (or of the start) plus the grace window.
pub open spec fn down_since_of(system: SystemRecord, last_ping: Option<i64>) -> int {
    slot_of(silent_since(system, last_ping), system.frequency as int, system.starts_at as int)
        + system.down_after
}

/// The claim succeeds: the system is active, not yet alerted, has a valid
/// frequency and grace window, is overdue, and its outage has a
/// representable start.
pub open spec fn claimable(system: SystemRecord, last_ping: Option<i64>, now: int) -> bool {
    &&& !system.deleted
    &&& !system.down_sent_email
    &&& system.frequency > 0
    &&& system.down_after >= 0
    &&& overdue(system, last_ping, now)
    &&& i64::MIN <= down_since_of(system, last_ping) <= i64::MAX
}

/// The stored state after a claim attempt.
pub open spec fn after_claim(system: SystemRecord, last_ping: Option<i64>, now: int) -> SystemRecord {
    if claimable(system, last_ping, now) {
        SystemRecord { down_sent_email: true, ..system }
    } else {
        system
    }
}

/// The stored state after a ping was accepted: the alert flag is cleared.
pub open spec fn after_ping(system: SystemRecord) -> SystemRecord {
    SystemRecord { down_sent_email: false, ..system }
}

/// `e` is the snapshot of the outage of `system`, owned by `owner`.
pub open spec fn describes(e: EmailData, system: SystemRecord, owner: User, last_ping: Option<i64>) -> bool {
    &&& e.system_id == system.id
    &&& e.utc_timestamp == down_since_of(system, last_ping)
    &&& e.down_after == system.down_after
    &&& e.system_name@ == system.name@
    &&& e.user_email@ == owner.email@
    &&& e.timezone@ == owner.timezone@
    &&& e.language@ == owner.language@
}

/// Whether `system`, silent since its latest ping `last_ping` (or since its
/// start when it never pinged), has been silent for longer than its grace
/// window at `now`.
pub fn is_overdue(system: &SystemRecord, last_ping: Option<i64>, now: i64) -> (r: bool)
    ensures
        r == overdue(*system, last_ping, now as int),
{
    let since: i64 = match last_ping {
        Some(p) => p,
        None => system.starts_at,
    };
    (now as i128) - (since as i128) > system.down_after as i128
}

/// The first instant at which an outage of `system` was detectable, if the
/// frequency is valid and the instant can be represented.
pub fn down_since(system: &SystemRecord, last_ping: Option<i64>) -> (r: Option<i64>)
    ensures
        r == (if system.frequency > 0 && i64::MIN <= down_since_of(*system, last_ping)
            <= i64::MAX {
            Some(down_since_of(*system, last_ping) as i64)
        } else {
            None::<i64>
        }),
{
    if system.frequency <= 0 {
        return None;
    }
    let since: i64 = match last_ping {
        Some(p) => p,
        None => system.starts_at,
    };
    let t: i128 = slot_wide(since, system.frequency, system.starts_at) + system.down_after as i128;
    if t < i64::MIN as i128 || t > i64::MAX as i128 {
        None
    } else {
        Some(t as i64)
    }
}

/// Atomically claims an outage of `system` for alerting: when the system is
/// active, not yet alerted, valid and overdue, marks it alerted and returns the
/// snapshot of the outage; otherwise leaves it unchanged and returns `None`.
pub fn try_claim(system: &mut SystemRecord, owner: &User, last_ping: Option<i64>, now: i64) -> (r:
    Option<EmailData>)
    ensures
        *final(system) == after_claim(*old(system), last_ping, now as int),
        r is Some <==> claimable(*old(system), last_ping, now as int),
        r is Some ==> describes(r->Some_0, *old(system), *owner, last_ping),
        r is Some ==> r->Some_0.down_after >= 0,
        old(system).wf() ==> final(system).wf(),
{
    if system.deleted || system.down_sent_email || system.down_after < 0 || !is_overdue(
        system,
        last_ping,
        now,
    ) {
        return None;
    }
    let at = match down_since(system, last_ping) {
        Some(t) => t,
        None => {
            return None;
        },
    };
    system.down_sent_email = true;
    Some(
        EmailData {
            system_id: system.id,
            utc_timestamp: at,
            down_after: system.down_after,
            system_name: system.name.clone(),
            user_email: owner.email.clone(),
            timezone: owner.timezone.clone(),
            language: owner.language.clone(),
        },
    )
}

/// Clears the alert flag of `system`, so that a later outage can be claimed
/// again. Does nothing else.
pub fn clear_armed(system: &mut SystemRecord)
    ensures
        *final(system) == after_ping(*old(system)),
        old(system).wf() ==> final(system).wf(),
{
    system.down_sent_email = false;
}

/// Accepts a ping for `system`: a deleted system is refused and left
/// unchanged; otherwise its alert flag is cleared.
pub fn accept_ping(system: &mut SystemRecord) -> (r: Result<(), PingError>)
    ensures
        old(system).deleted ==> r == Err::<(), PingError>(PingError::SystemNotFound),
        old(system).deleted ==> *final(system) == *old(system),
        !old(system).deleted ==> r is Ok && *final(system) == after_ping(*old(system)),
        old(system).wf() ==> final(system).wf(),
{
    if system.deleted {
        return Err(PingError::SystemNotFound);
    }
    clear_armed(system);
    Ok(())
}

/// The indices, ascending, of the systems among the first `n` that a sweep
/// at `now` claims.
pub open spec fn claimed_indices(systems: Seq<SystemRecord>, last_pings: Seq<Option<i64>>, now: int, n: int) -> Seq<int>
    decreases n,
{
    if n <= 0 {
        Seq::empty()
    } else {
        let rest = claimed_indices(systems, last_pings, now, n - 1);
        if claimable(systems[n - 1], last_pings[n - 1], now) {
            rest.push(n - 1)
        } else {
            rest
        }
    }
}

/// One detector sweep at `now`: tries to claim every system, where
/// `owners[i]` owns `systems[i]` and `last_pings[i]` is its latest ping.
/// Returns the snapshots of the claimed outages, in the order of `systems`.
pub fn sweep(
    systems: &mut Vec<SystemRecord>,
    owners: &Vec<User>,
    last_pings: &Vec<Option<i64>>,
    now: i64,
) -> (r: Vec<EmailData>)
    requires
        owners@.len() == old(systems)@.len(),
        last_pings@.len() == old(systems)@.len(),
    ensures
        final(systems)@.len() == old(systems)@.len(),
        forall|i: int|
            0 <= i < old(systems)@.len() ==> #[trigger] final(systems)@[i] == after_claim(
                old(systems)@[i],
                last_pings@[i],
                now as int,
            ),
        r@.len() == claimed_indices(
            old(systems)@,
            last_pings@,
            now as int,
            old(systems)@.len() as int,
        ).len(),
        forall|k: int|
            0 <= k < r@.len() ==> {
                let i = #[trigger] claimed_indices(
                    old(systems)@,
                    last_pings@,
                    now as int,
                    old(systems)@.len() as int,
                )[k];
                describes(r@[k], old(systems)@[i], owners@[i], last_pings@[i])
            },
        forall|k: int| 0 <= k < r@.len() ==> (#[trigger] r@[k]).down_after >= 0,
{
    let ghost before = systems@;
    let mut claimed: Vec<EmailData> = Vec::new();
    let mut i: usize = 0;
    while i < systems.len()
        invariant
            owners@.len() == before.len(),
            last_pings@.len() == before.len(),
            systems@.len() == before.len(),
            0 <= i <= before.len(),
            forall|j: int|
                0 <= j < i ==> #[trigger] systems@[j] == after_claim(
                    before[j],
                    last_pings@[j],
                    now as int,
                ),
            forall|j: int| i <= j < before.len() ==> #[trigger] systems@[j] == before[j],
            claimed@.len() == claimed_indices(before, last_pings@, now as int, i as int).len(),
            forall|k: int|
                0 <= k < claimed@.len() ==> {
                    let j = #[trigger] claimed_indices(before, last_pings@, now as int, i as int)[k];
                    0 <= j < i && describes(claimed@[k], before[j], owners@[j], last_pings@[j])
                },
            forall|k: int| 0 <= k < claimed@.len() ==> (#[trigger] claimed@[k]).down_after >= 0,
        decreases before.len() - i,
    {
        let ghost prev = claimed_indices(before, last_pings@, now as int, i as int);
        let outcome = try_claim(&mut systems[i], &owners[i], last_pings[i], now);
        match outcome {
            Some(e) => {
                claimed.push(e);
            },
            None => {},
        }
        proof {
            let next = claimed_indices(before, last_pings@, now as int, i + 1);
            assert forall|k: int| 0 <= k < prev.len() implies next[k] == prev[k] by {}
        }
        i = i + 1;
    }
    claimed
}

/// The stored states after a sweep at `now`.
pub open spec fn after_sweep(systems: Seq<SystemRecord>, last_pings: Seq<Option<i64>>, now: int) -> Seq<SystemRecord> {
    Seq::new(systems.len(), |i: int| after_claim(systems[i], last_pings[i], now))
}

/// A sweep claims exactly the claimable systems, each once, in order.
pub proof fn lemma_claimed_indices(systems: Seq<SystemRecord>, last_pings: Seq<Option<i64>>, now: int, n: int)
    requires
        0 <= n,
    ensures
        forall|j: int|
            claimed_indices(systems, last_pings, now, n).contains(j) <==> 0 <= j < n && claimable(
                systems[j],
                last_pings[j],
                now,
            ),
        forall|a: int, b: int|
            0 <= a < b < claimed_indices(systems, last_pings, now, n).len() ==> claimed_indices(
                systems,
                last_pings,
                now,
                n,
            )[a] < claimed_indices(systems, last_pings, now, n)[b],
        forall|a: int|
            0 <= a < claimed_indices(systems, last_pings, now, n).len() ==> 0 <= #[trigger] claimed_indices(
                systems,
                last_pings,
                now,
                n,
            )[a] < n,
        claimed_indices(systems, last_pings, now, n).no_duplicates(),
    decreases n,
{
    let c = claimed_indices(systems, last_pings, now, n);
    if n > 0 {
        lemma_claimed_indices(systems, last_pings, now, n - 1);
        let rest = claimed_indices(systems, last_pings, now, n - 1);
        if claimable(systems[n - 1], last_pings[n - 1], now) {
            assert(c == rest.push(n - 1));
            assert forall|j: int| c.contains(j) <==> 0 <= j < n && claimable(
                systems[j],
                last_pings[j],
                now,
            ) by {
                if c.contains(j) {
                    let k = choose|k: int| 0 <= k < c.len() && c[k] == j;
                    if k < rest.len() {
                        assert(rest[k] == j);
                        assert(rest.contains(j));
                    }
                }
                if 0 <= j < n - 1 && claimable(systems[j], last_pings[j], now) {
                    assert(rest.contains(j));
                    let k = choose|k: int| 0 <= k < rest.len() && rest[k] == j;
                    assert(c[k] == j);
                }
                if j == n - 1 {
                    assert(c[c.len() - 1] == j);
                }
            }
        } else {
            assert(c == rest);
        }
    }
}

/// Two claim attempts on one system with no ping in between, at any two
/// instants and in either order, succeed once in all when the system is
/// claimable at either instant, and never otherwise.
pub proof fn lemma_claim_at_most_once(system: SystemRecord, last_ping: Option<i64>, first: int, second: int)
    ensures
        !(claimable(system, last_ping, first) && claimable(
            after_claim(system, last_ping, first),
            last_ping,
            second,
        )),
        (claimable(system, last_ping, first) || claimable(
            after_claim(system, last_ping, first),
            last_ping,
            second,
        )) <==> (claimable(system, last_ping, first) || claimable(system, last_ping, second)),
{
}

/// Two sweeps, at `first` and then at `second`, over the same systems with no
/// ping in between: each claims a system at most once, no system is claimed by
/// both, and a system is claimed by one of them exactly when it is claimable
/// at either instant.
pub proof fn lemma_two_sweeps_claim_once(
    systems: Seq<SystemRecord>,
    last_pings: Seq<Option<i64>>,
    first: int,
    second: int,
    i: int,
)
    requires
        last_pings.len() == systems.len(),
        0 <= i < systems.len(),
    ensures
        ({
            let n = systems.len() as int;
            let c1 = claimed_indices(systems, last_pings, first, n);
            let c2 = claimed_indices(after_sweep(systems, last_pings, first), last_pings, second, n);
            &&& c1.no_duplicates()
            &&& c2.no_duplicates()
            &&& !(c1.contains(i) && c2.contains(i))
            &&& (c1.contains(i) || c2.contains(i)) <==> (claimable(systems[i], last_pings[i], first)
                || claimable(systems[i], last_pings[i], second))
        }),
{
    let n = systems.len() as int;
    let mid = after_sweep(systems, last_pings, first);
    lemma_claimed_indices(systems, last_pings, first, n);
    lemma_claimed_indices(mid, last_pings, second, n);
    assert(mid[i] == after_claim(systems[i], last_pings[i], first));
    lemma_claim_at_most_once(systems[i], last_pings[i], first, second);
}

/// After a ping at `ping` is accepted, the system is no longer alerted, even
/// when a claim went through just before; a later claim at `now` succeeds
/// only when the silence since that ping exceeds the grace window, and then
/// does for an active system with a valid frequency and grace window and a
/// representable outage start.
pub proof fn lemma_ping_rearms(system: SystemRecord, last_ping: Option<i64>, claim_at: int, ping: i64, now: int)
    ensures
        !after_ping(system).down_sent_email,
        !after_ping(after_claim(system, last_ping, claim_at)).down_sent_email,
        claimable(after_ping(system), Some(ping), now) <==> {
            &&& !system.deleted
            &&& system.frequency > 0
            &&& system.down_after >= 0
            &&& now - ping > system.down_after
            &&& i64::MIN <= down_since_of(system, Some(ping)) <= i64::MAX
        },
{
}

} // verus!
