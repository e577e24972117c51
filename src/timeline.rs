//! Reconstruction of a paginated Up / Down / Untracked timeline from the
//! sparse pings of a system.
use ahash::AHashMap;
use vstd::prelude::*;

use crate::grid::{slot_of, slot_wide};
use crate::system::SystemRecord;

verus! {

/// Largest number of slots that one page may hold.
pub const LIMIT_SYSTEM_REQUEST: i64 = 100;

/// The status of a system at one expected timestamp.
#[derive(Debug, Clone, Copy, PartialEq, Eq, Structural)]
pub enum Status {
    /// A ping was received for this slot.
    Up,
    /// No ping was received although the system was monitored.
    Down,
    /// The slot lies at or before the start of monitoring.
    Untracked,
}

/// One slot of a timeline.
#[derive(Debug, Clone, Copy, PartialEq, Eq)]
pub struct Instant {
    pub status: Status,
    /// The raw timestamp of the latest ping of this slot, if any.
    pub timestamp: Option<i64>,
    /// The grid point of this slot.
    pub expected_timestamp: i64,
}

/// Why a timeline cannot be produced.
#[derive(Debug, Clone, Copy, PartialEq, Eq, Structural)]
pub enum TimelineError {
    /// The frequency of the system is zero or negative.
    InvalidCadence,
    /// The page size is not in `1..=LIMIT_SYSTEM_REQUEST`.
    InvalidPageSize,
    /// The page number is negative, or the page lies outside the instants
    /// that can be represented.
    InvalidPage,
}

impl TimelineError {
    /// Human readable description of the error.
    pub fn message(&self) -> (r: &'static str)
        ensures
            r@ == match self {
                TimelineError::InvalidCadence => "Invalid frequency"@,
                TimelineError::InvalidPageSize => "Limit of list_size exceeded"@,
                TimelineError::InvalidPage => "Page out of range"@,
            },
    {
        proof {
            reveal_strlit("Invalid frequency");
            reveal_strlit("Limit of list_size exceeded");
            reveal_strlit("Page out of range");
        }
        match self {
            TimelineError::InvalidCadence => "Invalid frequency",
            TimelineError::InvalidPageSize => "Limit of list_size exceeded",
            TimelineError::InvalidPage => "Page out of range",
        }
    }
}

/// The slots that one page covers and the instants of the pings it needs.
#[derive(Debug, Clone, Copy, PartialEq, Eq, Structural)]
pub struct PageWindow {
    /// The latest slot of the page.
    pub nearest: i64,
    /// The slot just before the earliest slot of the page (excluded).
    pub furthest: i64,
    /// Pings are needed from after `furthest` up to and including this instant.
    pub fetch_until: i64,
}

// ---------------------------------------------------------------------------
// The bucket map: slot -> latest raw ping of that slot.

#[verifier::external_type_specification]
#[verifier::external_body]
#[verifier::reject_recursive_types(K)]
#[verifier::reject_recursive_types(V)]
#[verifier::reject_recursive_types(S)]
pub struct ExAHashMap<K, V, S>(AHashMap<K, V, S>);

#[verifier::external_type_specification]
#[verifier::external_body]
pub struct ExRandomState(ahash::RandomState);

/// The entries of a bucket map.
pub uninterp spec fn bucket_entries(m: AHashMap<i64, i64>) -> Map<i64, i64>;

/// What a lookup of `k` in `m` gives.
pub open spec fn lookup(m: Map<i64, i64>, k: i64) -> Option<i64> {
    if m.contains_key(k) {
        Some(m[k])
    } else {
        None
    }
}

/// Relies on ahash::AHashMap::new: a new map holds no entry. (Seeding the
/// hasher panics only if the operating system's random source fails.)
#[verifier::external_body]
fn new_buckets() -> (r: AHashMap<i64, i64>)
    ensures
        bucket_entries(r) =~= Map::empty(),
{
    AHashMap::new()
}

/// Relies on ahash::AHashMap::insert: the key is mapped to the value and the
/// other entries stay as they were.
#[verifier::external_body]
fn put_bucket(m: &mut AHashMap<i64, i64>, k: i64, v: i64)
    ensures
        bucket_entries(*final(m)) == bucket_entries(*old(m)).insert(k, v),
{
    m.insert(k, v);
}

/// Relies on ahash::AHashMap::get: the value stored under the key, if any.
#[verifier::external_body]
fn bucket_at(m: &AHashMap<i64, i64>, k: i64) -> (r: Option<i64>)
    ensures
        r == lookup(bucket_entries(*m), k),
{
    m.get(&k).copied()
}

// ---------------------------------------------------------------------------
// Specification of the timeline.

/// The latest of the pings whose grid slot is `slot`, if there is one.
pub open spec fn latest_in_bucket(pings: Seq<i64>, frequency: int, starts_at: int, slot: int) -> Option<i64>
    decreases pings.len(),
{
    if pings.len() == 0 {
        None
    } else {
        let rest = latest_in_bucket(pings.drop_last(), frequency, starts_at, slot);
        let p = pings.last();
        if slot_of(p as int, frequency, starts_at) == slot {
            match rest {
                Some(q) => if q >= p { Some(q) } else { Some(p) },
                None => Some(p),
            }
        } else {
            rest
        }
    }
}

/// The timeline entry of the slot `slot`, given the fetched pings.
pub open spec fn instant_at(pings: Seq<i64>, frequency: int, starts_at: int, slot: i64) -> Instant {
    match latest_in_bucket(pings, frequency, starts_at, slot as int) {
        Some(p) => Instant { status: Status::Up, timestamp: Some(p), expected_timestamp: slot },
        None => Instant {
            status: if slot > starts_at { Status::Down } else { Status::Untracked },
            timestamp: None,
            expected_timestamp: slot,
        },
    }
}

/// The `i`-th slot (ascending) of the page that ends at `nearest` and starts
/// just after `furthest`.
pub open spec fn page_slot(furthest: int, frequency: int, i: int) -> int {
    furthest + (i + 1) * frequency
}

/// `timeline` lists, ascending, the `size` slots after `furthest`.
pub open spec fn is_timeline(
    timeline: Seq<Instant>,
    pings: Seq<i64>,
    frequency: int,
    starts_at: int,
    furthest: int,
    size: int,
) -> bool {
    &&& timeline.len() == size
    &&& forall|i: int|
        0 <= i < size ==> #[trigger] timeline[i] == instant_at(
            pings,
            frequency,
            starts_at,
            page_slot(furthest, frequency, i) as i64,
        )
}

/// The latest slot of page `page`.
pub open spec fn page_nearest(current_time: int, frequency: int, starts_at: int, page: int, size: int) -> int {
    slot_of(current_time, frequency, starts_at) - frequency * (page * size)
}

/// The slot before the earliest slot of page `page`.
pub open spec fn page_furthest(current_time: int, frequency: int, starts_at: int, page: int, size: int) -> int {
    page_nearest(current_time, frequency, starts_at, page, size) - frequency * size
}

/// What planning a page gives: its window, or the error.
pub open spec fn page_plan(current_time: int, frequency: int, starts_at: int, page: int, size: int) -> Result<PageWindow, TimelineError> {
    let nearest = page_nearest(current_time, frequency, starts_at, page, size);
    let furthest = page_furthest(current_time, frequency, starts_at, page, size);
    if size <= 0 || size > LIMIT_SYSTEM_REQUEST {
        Err(TimelineError::InvalidPageSize)
    } else if frequency <= 0 {
        Err(TimelineError::InvalidCadence)
    } else if page < 0 || furthest < i64::MIN || nearest + frequency > i64::MAX {
        Err(TimelineError::InvalidPage)
    } else {
        Ok(PageWindow {
            nearest: nearest as i64,
            furthest: furthest as i64,
            fetch_until: (nearest + frequency) as i64,
        })
    }
}

// ---------------------------------------------------------------------------
// Computation.

/// Groups the pings by grid slot, keeping for each slot its latest ping.
fn bucket_pings(pings: &Vec<i64>, frequency: i64, starts_at: i64) -> (r: AHashMap<i64, i64>)
    requires
        frequency > 0,
    ensures
        forall|k: i64|
            #[trigger] lookup(bucket_entries(r), k) == latest_in_bucket(
                pings@,
                frequency as int,
                starts_at as int,
                k as int,
            ),
{
    let mut buckets = new_buckets();
    let mut j: usize = 0;
    while j < pings.len()
        invariant
            frequency > 0,
            j <= pings.len(),
            forall|k: i64|
                #[trigger] lookup(bucket_entries(buckets), k) == latest_in_bucket(
                    pings@.subrange(0, j as int),
                    frequency as int,
                    starts_at as int,
                    k as int,
                ),
        decreases pings.len() - j,
    {
        let p = pings[j];
        let b = slot_wide(p, frequency, starts_at);
        let ghost before = bucket_entries(buckets);
        let ghost prefix = pings@.subrange(0, j as int);
        let ghost next = pings@.subrange(0, j + 1);
        assert(next.drop_last() =~= prefix);
        assert(next.last() == p);
        if i64::MIN as i128 <= b && b <= i64::MAX as i128 {
            let slot = b as i64;
            let keep = match bucket_at(&buckets, slot) {
                Some(q) => q >= p,
                None => false,
            };
            if !keep {
                put_bucket(&mut buckets, slot, p);
            }
            assert forall|k: i64|
                #[trigger] lookup(bucket_entries(buckets), k) == latest_in_bucket(
                    next,
                    frequency as int,
                    starts_at as int,
                    k as int,
                ) by {
                assert(lookup(before, k) == latest_in_bucket(
                    prefix,
                    frequency as int,
                    starts_at as int,
                    k as int,
                ));
            }
        } else {
            assert forall|k: i64|
                #[trigger] lookup(bucket_entries(buckets), k) == latest_in_bucket(
                    next,
                    frequency as int,
                    starts_at as int,
                    k as int,
                ) by {
                assert(lookup(before, k) == latest_in_bucket(
                    prefix,
                    frequency as int,
                    starts_at as int,
                    k as int,
                ));
            }
        }
        j = j + 1;
    }
    assert(pings@.subrange(0, pings.len() as int) =~= pings@);
    buckets
}

/// Builds the timeline of the slots after `furthest` up to `nearest`,
/// ascending: a slot with a ping is `Up` with the latest such ping, a slot
/// without is `Down` after `starts_at` and `Untracked` otherwise.
pub fn from_ping_records_to_instants(
    ping_records: &Vec<i64>,
    frequency: i64,
    starts_at: i64,
    nearest_datetime: i64,
    furthest_datetime: i64,
    list_size: i64,
) -> (r: Vec<Instant>)
    requires
        frequency > 0,
        0 < list_size <= LIMIT_SYSTEM_REQUEST,
        nearest_datetime - furthest_datetime == frequency * list_size,
    ensures
        is_timeline(
            r@,
            ping_records@,
            frequency as int,
            starts_at as int,
            furthest_datetime as int,
            list_size as int,
        ),
{
    let buckets = bucket_pings(ping_records, frequency, starts_at);
    let mut instants: Vec<Instant> = Vec::new();
    let mut slot: i64 = furthest_datetime;
    let mut i: i64 = 0;
    while i < list_size
        invariant
            frequency > 0,
            0 <= i <= list_size <= LIMIT_SYSTEM_REQUEST,
            nearest_datetime - furthest_datetime == frequency * list_size,
            slot == furthest_datetime + i * frequency,
            instants@.len() == i,
            forall|k: i64|
                #[trigger] lookup(bucket_entries(buckets), k) == latest_in_bucket(
                    ping_records@,
                    frequency as int,
                    starts_at as int,
                    k as int,
                ),
            forall|j: int|
                0 <= j < i ==> #[trigger] instants@[j] == instant_at(
                    ping_records@,
                    frequency as int,
                    starts_at as int,
                    page_slot(furthest_datetime as int, frequency as int, j) as i64,
                ),
        decreases list_size - i,
    {
        proof {
            assert((i + 1) * frequency <= list_size * frequency) by (nonlinear_arith)
                requires
                    i + 1 <= list_size,
                    frequency > 0,
            ;
            assert((i + 1) * frequency == i * frequency + frequency) by (nonlinear_arith);
            assert(list_size * frequency == frequency * list_size) by (nonlinear_arith);
        }
        slot = slot + frequency;
        let instant = match bucket_at(&buckets, slot) {
            Some(p) => Instant { status: Status::Up, timestamp: Some(p), expected_timestamp: slot },
            None => {
                let status = if slot > starts_at {
                    Status::Down
                } else {
                    Status::Untracked
                };
                Instant { status, timestamp: None, expected_timestamp: slot }
            },
        };
        instants.push(instant);
        i = i + 1;
    }
    instants
}

/// Computes which slots page `page` of `list_size` slots covers, counting
/// back from the slot of `current_time`, and which pings it needs.
pub fn plan_page(frequency: i64, starts_at: i64, current_time: i64, page: i64, list_size: i64) -> (r:
    Result<PageWindow, TimelineError>)
    ensures
        r == page_plan(
            current_time as int,
            frequency as int,
            starts_at as int,
            page as int,
            list_size as int,
        ),
{
    if list_size <= 0 || list_size > LIMIT_SYSTEM_REQUEST {
        return Err(TimelineError::InvalidPageSize);
    }
    if frequency <= 0 {
        return Err(TimelineError::InvalidCadence);
    }
    if page < 0 {
        return Err(TimelineError::InvalidPage);
    }
    let now: i128 = slot_wide(current_time, frequency, starts_at);
    let f: i128 = frequency as i128;
    let size: i128 = list_size as i128;
    assert(0 <= page * list_size <= 0x8000_0000_0000_0000 * 100) by (nonlinear_arith)
        requires
            0 <= page <= 0x8000_0000_0000_0000,
            0 < list_size <= 100,
    ;
    let count: i128 = (page as i128) * size;
    assert(0 <= f * count) by (nonlinear_arith)
        requires
            f > 0,
            count >= 0,
    ;
    assert(f * size <= 0x8000_0000_0000_0000 * 100) by (nonlinear_arith)
        requires
            0 < f <= 0x8000_0000_0000_0000,
            0 < size <= 100,
    ;
    let span = match f.checked_mul(count) {
        Some(v) => v,
        None => {
            return Err(TimelineError::InvalidPage);
        },
    };
    if span > now - (i64::MIN as i128) {
        return Err(TimelineError::InvalidPage);
    }
    let nearest: i128 = now - span;
    let furthest: i128 = nearest - f * size;
    if furthest < i64::MIN as i128 || nearest + f > i64::MAX as i128 {
        return Err(TimelineError::InvalidPage);
    }
    Ok(PageWindow {
        nearest: nearest as i64,
        furthest: furthest as i64,
        fetch_until: (nearest + f) as i64,
    })
}

/// The timeline of page `page` of a system at `current_time`, from the pings
/// fetched for it: `list_size` slots, ascending, ending at the slot of
/// `current_time` moved back by `page * list_size` slots.
pub fn build_timeline(
    system: &SystemRecord,
    pings: &Vec<i64>,
    current_time: i64,
    page: i64,
    list_size: i64,
) -> (r: Result<Vec<Instant>, TimelineError>)
    ensures
        ({
            let plan = page_plan(
                current_time as int,
                system.frequency as int,
                system.starts_at as int,
                page as int,
                list_size as int,
            );
            &&& plan is Err ==> r == Err::<Vec<Instant>, TimelineError>(plan->Err_0)
            &&& plan is Ok ==> r is Ok && is_timeline(
                r->Ok_0@,
                pings@,
                system.frequency as int,
                system.starts_at as int,
                plan->Ok_0.furthest as int,
                list_size as int,
            )
        }),
{
    let window = match plan_page(system.frequency, system.starts_at, current_time, page, list_size) {
        Ok(w) => w,
        Err(e) => {
            return Err(e);
        },
    };
    assert(window.nearest - window.furthest == system.frequency * list_size);
    Ok(
        from_ping_records_to_instants(
            pings,
            system.frequency,
            system.starts_at,
            window.nearest,
            window.furthest,
            list_size,
        ),
    )
}

// ---------------------------------------------------------------------------
// Laws.

/// A slot has a latest ping exactly when some ping falls in that slot; the
/// latest ping is then one of those pings, and no ping of the slot is later.
pub proof fn lemma_latest_in_bucket(pings: Seq<i64>, frequency: int, starts_at: int, slot: int)
    ensures
        latest_in_bucket(pings, frequency, starts_at, slot) is Some <==> exists|j: int|
            0 <= j < pings.len() && slot_of(#[trigger] pings[j] as int, frequency, starts_at)
                == slot,
        latest_in_bucket(pings, frequency, starts_at, slot) is Some ==> {
            let q = latest_in_bucket(pings, frequency, starts_at, slot)->Some_0;
            &&& exists|j: int|
                0 <= j < pings.len() && #[trigger] pings[j] == q && slot_of(q as int, frequency, starts_at)
                    == slot
            &&& forall|j: int|
                0 <= j < pings.len() && slot_of(#[trigger] pings[j] as int, frequency, starts_at)
                    == slot ==> pings[j] <= q
        },
    decreases pings.len(),
{
    if pings.len() > 0 {
        let rest = pings.drop_last();
        lemma_latest_in_bucket(rest, frequency, starts_at, slot);
        let n = pings.len() - 1;
        assert forall|j: int| 0 <= j < n implies #[trigger] pings[j] == rest[j] by {}
        let r = latest_in_bucket(pings, frequency, starts_at, slot);
        if r is Some {
            let q = r->Some_0;
            if latest_in_bucket(rest, frequency, starts_at, slot) is Some && q == latest_in_bucket(
                rest,
                frequency,
                starts_at,
                slot,
            )->Some_0 {
                let j = choose|j: int|
                    0 <= j < rest.len() && #[trigger] rest[j] == q && slot_of(
                        q as int,
                        frequency,
                        starts_at,
                    ) == slot;
                assert(pings[j] == q);
            } else {
                assert(pings[n] == q);
            }
        } else {
            assert(!(slot_of(pings[n] as int, frequency, starts_at) == slot));
        }
    }
}

/// A slot of a timeline is `Up` exactly when one of the fetched pings falls in
/// that slot, and its timestamp is then the latest such ping; other slots are
/// `Down` after the start of monitoring and `Untracked` up to it.
pub proof fn lemma_timeline_up_iff_ping(
    timeline: Seq<Instant>,
    pings: Seq<i64>,
    system: SystemRecord,
    current_time: int,
    page: int,
    list_size: int,
    i: int,
)
    requires
        page_plan(current_time, system.frequency as int, system.starts_at as int, page, list_size) is Ok,
        is_timeline(
            timeline,
            pings,
            system.frequency as int,
            system.starts_at as int,
            page_plan(current_time, system.frequency as int, system.starts_at as int, page, list_size)->Ok_0.furthest as int,
            list_size,
        ),
        0 <= i < list_size,
    ensures
        ({
            let e = timeline[i];
            let f = system.frequency as int;
            let a = system.starts_at as int;
            &&& e.status == Status::Up <==> exists|j: int|
                0 <= j < pings.len() && slot_of(#[trigger] pings[j] as int, f, a)
                    == e.expected_timestamp
            &&& e.status == Status::Up ==> e.timestamp is Some && (exists|j: int|
                0 <= j < pings.len() && #[trigger] pings[j] == e.timestamp->Some_0)
                && forall|j: int|
                0 <= j < pings.len() && slot_of(#[trigger] pings[j] as int, f, a)
                    == e.expected_timestamp ==> pings[j] <= e.timestamp->Some_0
            &&& e.status != Status::Up ==> e.timestamp is None && (e.status == Status::Down
                <==> e.expected_timestamp > a)
        }),
{
    let f = system.frequency as int;
    let a = system.starts_at as int;
    let w = page_plan(current_time, f, a, page, list_size)->Ok_0;
    lemma_page_slot_in_window(w.furthest as int, w.nearest as int, f, list_size, i);
    let slot = page_slot(w.furthest as int, f, i);
    lemma_latest_in_bucket(pings, f, a, slot);
}

/// The slots of a page lie between its `furthest` (excluded) and `nearest`.
proof fn lemma_page_slot_in_window(furthest: int, nearest: int, frequency: int, size: int, i: int)
    requires
        frequency > 0,
        0 <= i < size,
        nearest - furthest == frequency * size,
    ensures
        furthest < page_slot(furthest, frequency, i) <= nearest,
        page_slot(furthest, frequency, i + 1) == page_slot(furthest, frequency, i) + frequency,
        page_slot(furthest, frequency, size - 1) == nearest,
{
    assert((i + 1) * frequency <= size * frequency) by (nonlinear_arith)
        requires
            i + 1 <= size,
            frequency > 0,
    ;
    assert((i + 1) * frequency > 0) by (nonlinear_arith)
        requires
            i >= 0,
            frequency > 0,
    ;
    assert((i + 2) * frequency == (i + 1) * frequency + frequency) by (nonlinear_arith);
    assert(size * frequency == frequency * size) by (nonlinear_arith);
}

/// With no pings, a page holds `list_size` slots that end at the page's
/// nearest slot and are one frequency apart, ascending; each is `Down` after
/// the start of monitoring and `Untracked` up to it.
pub proof fn lemma_timeline_without_pings(
    timeline: Seq<Instant>,
    system: SystemRecord,
    current_time: int,
    page: int,
    list_size: int,
)
    requires
        page_plan(current_time, system.frequency as int, system.starts_at as int, page, list_size) is Ok,
        is_timeline(
            timeline,
            Seq::empty(),
            system.frequency as int,
            system.starts_at as int,
            page_plan(current_time, system.frequency as int, system.starts_at as int, page, list_size)->Ok_0.furthest as int,
            list_size,
        ),
    ensures
        timeline.len() == list_size,
        timeline[list_size - 1].expected_timestamp == page_plan(
            current_time,
            system.frequency as int,
            system.starts_at as int,
            page,
            list_size,
        )->Ok_0.nearest,
        forall|i: int|
            0 <= i < list_size - 1 ==> (#[trigger] timeline[i + 1]).expected_timestamp
                == timeline[i].expected_timestamp + system.frequency,
        forall|i: int|
            0 <= i < list_size ==> (#[trigger] timeline[i]).timestamp is None && timeline[i].status
                == if timeline[i].expected_timestamp > system.starts_at {
                Status::Down
            } else {
                Status::Untracked
            },
{
    let f = system.frequency as int;
    let a = system.starts_at as int;
    let w = page_plan(current_time, f, a, page, list_size)->Ok_0;
    assert forall|i: int| 0 <= i < list_size implies furthest_lt_slot(w.furthest as int, w.nearest as int, f, i) by {
        lemma_page_slot_in_window(w.furthest as int, w.nearest as int, f, list_size, i);
    }
    lemma_page_slot_in_window(w.furthest as int, w.nearest as int, f, list_size, list_size - 1);
    assert forall|i: int| 0 <= i < list_size - 1 implies (#[trigger] timeline[i + 1]).expected_timestamp
        == timeline[i].expected_timestamp + system.frequency by {
        lemma_page_slot_in_window(w.furthest as int, w.nearest as int, f, list_size, i);
        lemma_page_slot_in_window(w.furthest as int, w.nearest as int, f, list_size, i + 1);
    }
}

spec fn furthest_lt_slot(furthest: int, nearest: int, frequency: int, i: int) -> bool {
    furthest < page_slot(furthest, frequency, i) <= nearest
}

} // verus!
