//! The decisions of the status-page monitors: when an outage opens an
//! incident, when a recovery resolves one, which overdue batches get their
//! own incident, and what a public RPC probe leads to.
//!
//! Instants are nanoseconds since the Unix epoch; thresholds and timeouts are
//! durations in nanoseconds.
use vstd::prelude::*;

use crate::active_incidents::{ActiveIncidents, IncidentKey};
use crate::text::{has_infix};

verus! {

/// Nanoseconds per second.
pub const NANOS_PER_SEC: i128 = 1_000_000_000;

/// Nanoseconds per hour.
pub const NANOS_PER_HOUR: i128 = 3_600_000_000_000;

/// Ages above this (one hour) suppress new batch-submission incidents: the
/// data is too old to judge, as right after a start.
pub const STARTUP_GRACE_NANOS: u128 = 3_600_000_000_000;

/// Ages above this (one day) mean the data is incomplete and the check is skipped.
pub const MAX_REASONABLE_AGE_NANOS: u128 = 86_400_000_000_000;

/// What a health check leads to.
#[derive(Debug, Clone, Copy, PartialEq, Eq, Structural)]
pub enum MonitorAction {
    /// Nothing to do.
    Nothing,
    /// Open an incident and record it.
    OpenIncident,
    /// The component recovered: resolve the open incident.
    MarkHealthy,
}

/// Why a health check could not be evaluated.
#[derive(Debug, Clone, Copy, PartialEq, Eq, Structural)]
pub enum AgeError {
    /// A timestamp lies after the current time, so its age is no duration.
    InFuture,
}

/// Whether an event at `last` is recent enough at `now`: at most `window`
/// nanoseconds old.
pub open spec fn is_recent(last: i64, now: i64, window: u128) -> bool {
    now - last <= window
}

/// Decision of the L2 head monitor: an outage with no open incident opens
/// one, a recovery with an open incident resolves it.
pub open spec fn l2_head_decision(has_active: bool, last: i64, now: i64, threshold: u128) -> Result<
    MonitorAction,
    AgeError,
> {
    if now < last {
        Err(AgeError::InFuture)
    } else {
        let healthy = is_recent(last, now, threshold);
        if !has_active && !healthy {
            Ok(MonitorAction::OpenIncident)
        } else if has_active && healthy {
            Ok(MonitorAction::MarkHealthy)
        } else {
            Ok(MonitorAction::Nothing)
        }
    }
}

/// Whether `last` is within `window` nanoseconds of `now`, computed exactly.
fn within(last: i64, now: i64, window: u128) -> (r: bool)
    requires
        last <= now,
    ensures
        r == (now - last <= window),
{
    let age: i128 = (now as i128) - (last as i128);
    (age as u128) <= window
}

/// Handles the latest L2 head time for the L2 head monitor.
pub fn l2_head_decide(has_active: bool, last: i64, now: i64, threshold: u128) -> (r: Result<
    MonitorAction,
    AgeError,
>)
    ensures
        r == l2_head_decision(has_active, last, now, threshold),
{
    if now < last {
        return Err(AgeError::InFuture);
    }
    let healthy = within(last, now, threshold);
    if !has_active && !healthy {
        Ok(MonitorAction::OpenIncident)
    } else if has_active && healthy {
        Ok(MonitorAction::MarkHealthy)
    } else {
        Ok(MonitorAction::Nothing)
    }
}

/// Decision of the batch-submission monitor on the latest batch and L2 head
/// times: nothing while either is older than the startup grace period; a
/// batch outage while L2 is healthy opens an incident when none is open;
/// healthy batches resolve an open incident.
pub open spec fn batch_submission_decision(
    has_active: bool,
    last_batch: i64,
    last_l2: i64,
    now: i64,
    threshold: u128,
) -> Result<MonitorAction, AgeError> {
    if now < last_batch || now < last_l2 {
        Err(AgeError::InFuture)
    } else if !is_recent(last_batch, now, STARTUP_GRACE_NANOS) || !is_recent(last_l2, now, STARTUP_GRACE_NANOS) {
        Ok(MonitorAction::Nothing)
    } else {
        let batch_healthy = is_recent(last_batch, now, threshold);
        let l2_healthy = is_recent(last_l2, now, threshold);
        if !has_active && !batch_healthy && l2_healthy {
            Ok(MonitorAction::OpenIncident)
        } else if has_active && batch_healthy {
            Ok(MonitorAction::MarkHealthy)
        } else {
            Ok(MonitorAction::Nothing)
        }
    }
}

/// Handles the latest batch and L2 head times for the batch-submission monitor.
pub fn batch_submission_decide(
    has_active: bool,
    last_batch: i64,
    last_l2: i64,
    now: i64,
    threshold: u128,
) -> (r: Result<MonitorAction, AgeError>)
    ensures
        r == batch_submission_decision(has_active, last_batch, last_l2, now, threshold),
{
    if now < last_batch || now < last_l2 {
        return Err(AgeError::InFuture);
    }
    if !within(last_batch, now, STARTUP_GRACE_NANOS) || !within(last_l2, now, STARTUP_GRACE_NANOS) {
        return Ok(MonitorAction::Nothing);
    }
    let batch_healthy = within(last_batch, now, threshold);
    let l2_healthy = within(last_l2, now, threshold);
    if !has_active && !batch_healthy && l2_healthy {
        Ok(MonitorAction::OpenIncident)
    } else if has_active && batch_healthy {
        Ok(MonitorAction::MarkHealthy)
    } else {
        Ok(MonitorAction::Nothing)
    }
}

/// A periodic batch-submission check: skipped when either timestamp is older
/// than a day (the data is incomplete), else decided as for the latest times.
pub fn batch_submission_check(
    has_active: bool,
    last_batch: i64,
    last_l2: i64,
    now: i64,
    threshold: u128,
) -> (r: Result<MonitorAction, AgeError>)
    ensures
        r == if now < last_batch || now < last_l2 {
            Err(AgeError::InFuture)
        } else if !is_recent(last_batch, now, MAX_REASONABLE_AGE_NANOS) || !is_recent(
            last_l2,
            now,
            MAX_REASONABLE_AGE_NANOS,
        ) {
            Ok(MonitorAction::Nothing)
        } else {
            batch_submission_decision(has_active, last_batch, last_l2, now, threshold)
        },
{
    if now < last_batch || now < last_l2 {
        return Err(AgeError::InFuture);
    }
    if !within(last_batch, now, MAX_REASONABLE_AGE_NANOS) || !within(last_l2, now, MAX_REASONABLE_AGE_NANOS) {
        return Ok(MonitorAction::Nothing);
    }
    batch_submission_decide(has_active, last_batch, last_l2, now, threshold)
}

/// Law: the one-day staleness check never changes a decision: the startup
/// grace period already leaves such data alone.
pub proof fn law_staleness_check_is_subsumed(
    has_active: bool,
    last_batch: i64,
    last_l2: i64,
    now: i64,
    threshold: u128,
)
    requires
        last_batch <= now,
        last_l2 <= now,
        !is_recent(last_batch, now, MAX_REASONABLE_AGE_NANOS) || !is_recent(
            last_l2,
            now,
            MAX_REASONABLE_AGE_NANOS,
        ),
    ensures
        batch_submission_decision(has_active, last_batch, last_l2, now, threshold)
            == Ok::<MonitorAction, AgeError>(MonitorAction::Nothing),
{
}

/// Law: a monitor never opens a second incident and never resolves one that
/// is not open: opening requires no open incident, resolving requires one.
pub proof fn law_open_only_when_none_active(
    has_active: bool,
    last_batch: i64,
    last_l2: i64,
    now: i64,
    threshold: u128,
)
    ensures
        l2_head_decision(has_active, last_l2, now, threshold) == Ok::<MonitorAction, AgeError>(
            MonitorAction::OpenIncident,
        ) ==> !has_active,
        l2_head_decision(has_active, last_l2, now, threshold) == Ok::<MonitorAction, AgeError>(
            MonitorAction::MarkHealthy,
        ) ==> has_active,
        batch_submission_decision(has_active, last_batch, last_l2, now, threshold) == Ok::<
            MonitorAction,
            AgeError,
        >(MonitorAction::OpenIncident) ==> !has_active,
        batch_submission_decision(has_active, last_batch, last_l2, now, threshold) == Ok::<
            MonitorAction,
            AgeError,
        >(MonitorAction::MarkHealthy) ==> has_active,
{
}

/// Law: a batch-submission incident is only opened while L2 heads are still
/// arriving: an L2 outage alone never blames batch submission.
pub proof fn law_batch_incident_needs_healthy_l2(
    has_active: bool,
    last_batch: i64,
    last_l2: i64,
    now: i64,
    threshold: u128,
)
    ensures
        batch_submission_decision(has_active, last_batch, last_l2, now, threshold) == Ok::<
            MonitorAction,
            AgeError,
        >(MonitorAction::OpenIncident) ==> is_recent(last_l2, now, threshold) && !is_recent(
            last_batch,
            now,
            threshold,
        ),
{
}

/// What marking a component healthy does with its open incident.
#[derive(Debug, Clone, Copy, PartialEq, Eq, Structural)]
pub enum MarkHealthyStep {
    /// No incident is open under the key.
    NoIncident,
    /// The incident exists on the page: resolve it, then forget it.
    ResolveAndForget,
    /// The incident is not on the page: forget it without resolving.
    ForgetOnly,
    /// Whether the incident exists could not be determined: keep it and report the error.
    CheckFailed,
}

/// Decides how to mark a key healthy given whether an incident is open under
/// it and the result of asking the page whether that incident exists (`None`
/// when asking failed).
pub fn mark_healthy_step(has_incident: bool, exists_on_page: Option<bool>) -> (r: MarkHealthyStep)
    ensures
        r == if !has_incident {
            MarkHealthyStep::NoIncident
        } else {
            match exists_on_page {
                Some(true) => MarkHealthyStep::ResolveAndForget,
                Some(false) => MarkHealthyStep::ForgetOnly,
                None => MarkHealthyStep::CheckFailed,
            }
        },
{
    if !has_incident {
        return MarkHealthyStep::NoIncident;
    }
    match exists_on_page {
        Some(true) => MarkHealthyStep::ResolveAndForget,
        Some(false) => MarkHealthyStep::ForgetOnly,
        None => MarkHealthyStep::CheckFailed,
    }
}

/// Reporting to the status page is enabled exactly when a component id is configured.
pub fn reporting_enabled(component_id: &str) -> (r: bool)
    ensures
        r == (component_id@.len() > 0),
{
    component_id.unicode_len() > 0
}

/// Whole hours from `posted` to `now`, rounded toward zero, as an unsigned
/// count (a negative count wraps around, as a cast does).
pub open spec fn hours_between(posted: i64, now: i64) -> u64 {
    let age = now - posted;
    if age >= 0 {
        (age / (NANOS_PER_HOUR as int)) as u64
    } else {
        (-((-age) / (NANOS_PER_HOUR as int))) as u64
    }
}

/// Whole hours from `posted` to `now`.
pub fn hours_since(posted: i64, now: i64) -> (r: u64)
    ensures
        r == hours_between(posted, now),
{
    let age: i128 = (now as i128) - (posted as i128);
    if age >= 0 {
        let h: u128 = (age as u128) / (NANOS_PER_HOUR as u128);
        (h as i128) as u64
    } else {
        let h: u128 = ((-age) as u128) / (NANOS_PER_HOUR as u128);
        (-(h as i128)) as u64
    }
}

/// When an incident for a batch posted at `posted` starts: one timeout (in
/// nanoseconds) after posting.
pub fn incident_start(posted: i64, timeout: u128) -> (r: i64)
    requires
        posted + timeout <= i64::MAX,
    ensures
        r == posted + timeout,
{
    ((posted as i128) + (timeout as i128)) as i64
}

/// The batches of `batches` (as `(l1_block_number, batch_id, posted_at)`)
/// that have no open incident yet.
pub open spec fn unrecorded_batches(
    active: Map<(u64, u64), Seq<char>>,
    batches: Seq<(u64, u64, i64)>,
) -> Seq<(u64, u64, i64)> {
    batches.filter(|b: (u64, u64, i64)| !active.dom().contains((b.0, b.1)))
}

/// Returns the batches that are not yet known by an open incident, in order.
pub fn filter_new_batches(active: &ActiveIncidents<(u64, u64)>, batches: &[(u64, u64, i64)]) -> (r: Vec<
    (u64, u64, i64),
>)
    requires
        active.wf(),
    ensures
        r@ == unrecorded_batches(active.view(), batches@),
        forall|b: (u64, u64, i64)|
            #[trigger] r@.contains(b) <==> (batches@.contains(b) && !active.view().dom().contains(
                (b.0, b.1),
            )),
{
    let ghost pred = |b: (u64, u64, i64)| !active.view().dom().contains((b.0, b.1));
    let mut out: Vec<(u64, u64, i64)> = Vec::new();
    let mut i: usize = 0;
    while i < batches.len()
        invariant
            active.wf(),
            i <= batches@.len(),
            pred == (|b: (u64, u64, i64)| !active.view().dom().contains((b.0, b.1))),
            out@ == batches@.subrange(0, i as int).filter(pred),
        decreases batches@.len() - i,
    {
        let b = batches[i];
        proof {
            let next = batches@.subrange(0, i + 1);
            assert(next.drop_last() =~= batches@.subrange(0, i as int));
            assert(next.last() == b);
            reveal(Seq::filter);
        }
        if !active.contains_key(&(b.0, b.1)) {
            out.push(b);
        }
        i = i + 1;
    }
    proof {
        assert(batches@.subrange(0, batches@.len() as int) =~= batches@);
        law_unrecorded_batches_are_the_untracked_ones(active.view(), batches@);
    }
    out
}

/// Law: a batch `(l1, id, t)` is selected for a new incident exactly when it
/// is one of the batches and no incident is open under its own key
/// `(l1, id)`; in particular a batch already tracked is never selected.
pub proof fn law_unrecorded_batches_are_the_untracked_ones(
    active: Map<(u64, u64), Seq<char>>,
    batches: Seq<(u64, u64, i64)>,
)
    ensures
        forall|b: (u64, u64, i64)|
            #[trigger] unrecorded_batches(active, batches).contains(b) <==> (batches.contains(b)
                && !active.dom().contains((b.0, b.1))),
{
    let pred = |b: (u64, u64, i64)| !active.dom().contains((b.0, b.1));
    assert forall|b: (u64, u64, i64)|
        #[trigger] unrecorded_batches(active, batches).contains(b) <==> (batches.contains(b)
            && !active.dom().contains((b.0, b.1))) by {
        let sel = unrecorded_batches(active, batches);
        if sel.contains(b) {
            let k = choose|k: int| 0 <= k < sel.len() && sel[k] == b;
            lemma_filter_member(batches, pred, k);
        }
        if batches.contains(b) && pred(b) {
            broadcast use vstd::seq_lib::group_filter_ensures;
            let k = choose|k: int| 0 <= k < batches.len() && batches[k] == b;
            assert(pred(batches[k]));
        }
    }
}

/// Open incidents about a specific batch (not the catch-all) whose batch is
/// now in `settled`: these are resolved.
pub open spec fn settled_incidents<K: IncidentKey>(
    entries: Seq<(K, Seq<char>)>,
    settled: Seq<u64>,
) -> Seq<(K, Seq<char>)> {
    entries.filter(|e: (K, Seq<char>)| e.0.batch_of() != 0 && settled.contains(e.0.batch_of()))
}

/// The open incidents, in recording order, whose batch has since been proven
/// (or verified), leaving the catch-all incident aside.
pub fn incidents_to_resolve<K: IncidentKey>(active: &ActiveIncidents<K>, settled: &Vec<u64>) -> (r: Vec<
    (K, String),
>)
    ensures
        r@.map_values(|e: (K, String)| (e.0, e.1@)) == settled_incidents(active.entries(), settled@),
{
    let all = active.snapshot();
    let ghost f = |e: (K, String)| (e.0, e.1@);
    let ghost pred = |e: (K, Seq<char>)| e.0.batch_of() != 0 && settled@.contains(e.0.batch_of());
    let ghost entries = active.entries();
    let mut out: Vec<(K, String)> = Vec::new();
    let mut i: usize = 0;
    while i < all.len()
        invariant
            f == (|e: (K, String)| (e.0, e.1@)),
            pred == (|e: (K, Seq<char>)| e.0.batch_of() != 0 && settled@.contains(e.0.batch_of())),
            all@.map_values(f) == entries,
            i <= all@.len(),
            out@.map_values(f) == entries.subrange(0, i as int).filter(pred),
        decreases all@.len() - i,
    {
        let b = all[i].0.batch();
        proof {
            let next = entries.subrange(0, i + 1);
            assert(next.drop_last() =~= entries.subrange(0, i as int));
            assert(next.last() == f(all@[i as int]));
            reveal(Seq::filter);
        }
        if b != 0 && crate::gap_detection::vec_contains_u64(settled, b) {
            let k = all[i].0.copy_key();
            let id = all[i].1.clone();
            let ghost before = out@;
            out.push((k, id));
            proof {
                assert(out@.map_values(f) =~= before.map_values(f).push(f(all@[i as int])));
            }
        }
        i = i + 1;
    }
    proof {
        assert(entries.subrange(0, entries.len() as int) =~= entries);
    }
    out
}

/// Whether a batch posted at `posted` is overdue at `now`: strictly older than the timeout.
pub open spec fn overdue(posted: i64, now: i64, timeout: u128) -> bool {
    now - posted > timeout
}

/// The overdue batches among the first `n` that get a new verification
/// incident: those with no open incident and not already picked earlier in the list.
pub open spec fn unverified_to_open(
    known: Set<u64>,
    batches: Seq<(u64, u64, i64)>,
    now: i64,
    timeout: u128,
    n: nat,
) -> Seq<(u64, u64, i64)>
    decreases n,
{
    if n == 0 {
        Seq::empty()
    } else {
        let prev = unverified_to_open(known, batches, now, timeout, (n - 1) as nat);
        let b = batches[n - 1];
        if overdue(b.2, now, timeout) && !known.contains(b.1) && !prev.map_values(
            |x: (u64, u64, i64)| x.1,
        ).contains(b.1) {
            prev.push(b)
        } else {
            prev
        }
    }
}

/// Selects the unverified batches (as `(l1_block_number, batch_id, posted_at)`)
/// that get a new incident: overdue at `now`, not known yet, and each batch
/// id once, in list order.
pub fn new_unverified_incidents(
    active: &ActiveIncidents<u64>,
    batches: &[(u64, u64, i64)],
    now: i64,
    timeout: u128,
) -> (r: Vec<(u64, u64, i64)>)
    requires
        active.wf(),
    ensures
        r@ == unverified_to_open(active.view().dom(), batches@, now, timeout, batches@.len()),
{
    let mut out: Vec<(u64, u64, i64)> = Vec::new();
    let mut picked: Vec<u64> = Vec::new();
    let mut i: usize = 0;
    while i < batches.len()
        invariant
            active.wf(),
            i <= batches@.len(),
            out@ == unverified_to_open(active.view().dom(), batches@, now, timeout, i as nat),
            picked@ == out@.map_values(|x: (u64, u64, i64)| x.1),
        decreases batches@.len() - i,
    {
        let b = batches[i];
        let age: i128 = (now as i128) - (b.2 as i128);
        if age > 0 && (age as u128) > timeout && !active.contains_key(&b.1) && !crate::gap_detection::vec_contains_u64(&picked, b.1) {
            out.push(b);
            picked.push(b.1);
            proof {
                assert(picked@ =~= out@.map_values(|x: (u64, u64, i64)| x.1));
            }
        }
        i = i + 1;
    }
    out
}

/// Law: a verification incident is opened at most once per batch in a check,
/// never for a batch that already has one, and only for an overdue batch.
pub proof fn law_unverified_incidents_unique(
    known: Set<u64>,
    batches: Seq<(u64, u64, i64)>,
    now: i64,
    timeout: u128,
    n: nat,
)
    requires
        n <= batches.len(),
    ensures
        unverified_to_open(known, batches, now, timeout, n).map_values(
            |x: (u64, u64, i64)| x.1,
        ).no_duplicates(),
        forall|i: int|
            0 <= i < unverified_to_open(known, batches, now, timeout, n).len() ==> {
                let b = #[trigger] unverified_to_open(known, batches, now, timeout, n)[i];
                &&& !known.contains(b.1)
                &&& overdue(b.2, now, timeout)
            },
    decreases n,
{
    if n > 0 {
        law_unverified_incidents_unique(known, batches, now, timeout, (n - 1) as nat);
        let prev = unverified_to_open(known, batches, now, timeout, (n - 1) as nat);
        let cur = unverified_to_open(known, batches, now, timeout, n);
        let g = |x: (u64, u64, i64)| x.1;
        if cur != prev {
            assert(cur == prev.push(batches[n - 1]));
            assert(cur.map_values(g) =~= prev.map_values(g).push(batches[n - 1].1));
        }
    }
}

/// The catch-all verification incident is resolved when it is the only open
/// incident and no unverified batch is overdue any more.
pub fn resolve_catch_all_if_clear(active: &ActiveIncidents<u64>, none_left: bool) -> (r: bool)
    requires
        active.wf(),
    ensures
        r == (active.view().len() == 1 && active.view().dom().contains(0u64) && none_left),
{
    active.catch_all_only() && none_left
}

/// Law: resolving the settled incidents keeps the catch-all incident and
/// every incident whose batch is still unsettled, and drops every incident
/// about a settled batch.
pub proof fn law_settled_incidents_are_exactly_resolvable<K: IncidentKey>(
    entries: Seq<(K, Seq<char>)>,
    settled: Seq<u64>,
    e: (K, Seq<char>),
)
    ensures
        settled_incidents(entries, settled).contains(e) <==> (entries.contains(e) && e.0.batch_of()
            != 0 && settled.contains(e.0.batch_of())),
{
    broadcast use vstd::seq_lib::group_filter_ensures;

    let pred = |x: (K, Seq<char>)| x.0.batch_of() != 0 && settled.contains(x.0.batch_of());
    if settled_incidents(entries, settled).contains(e) {
        let k = choose|k: int| 0 <= k < settled_incidents(entries, settled).len()
            && settled_incidents(entries, settled)[k] == e;
        lemma_filter_member(entries, pred, k);
    }
    if entries.contains(e) && pred(e) {
        let k = choose|k: int| 0 <= k < entries.len() && entries[k] == e;
        assert(pred(entries[k]));
    }
}

proof fn lemma_filter_member<A>(s: Seq<A>, pred: spec_fn(A) -> bool, k: int)
    requires
        0 <= k < s.filter(pred).len(),
    ensures
        s.contains(s.filter(pred)[k]),
        pred(s.filter(pred)[k]),
    decreases s.len(),
{
    reveal(Seq::filter);
    let sub = s.drop_last().filter(pred);
    if pred(s.last()) && k == sub.len() {
        assert(s[s.len() - 1] == s.last());
    } else {
        lemma_filter_member(s.drop_last(), pred, k);
        let x = sub[k];
        let j = choose|j: int| 0 <= j < s.drop_last().len() && s.drop_last()[j] == x;
        assert(s[j] == x);
    }
}

/// The open incidents with those under `keys` forgotten, one key after another.
pub open spec fn without_keys<K>(m: Map<K, Seq<char>>, keys: Seq<K>) -> Map<K, Seq<char>>
    decreases keys.len(),
{
    if keys.len() == 0 {
        m
    } else {
        without_keys(m, keys.drop_last()).remove(keys.last())
    }
}

/// The open incidents after a check: those under the `resolved` keys are
/// forgotten, then each incident of `opened` is recorded, in order.
pub open spec fn after_check<K>(
    m: Map<K, Seq<char>>,
    resolved: Seq<K>,
    opened: Seq<(K, Seq<char>)>,
) -> Map<K, Seq<char>>
    decreases opened.len(),
{
    if opened.len() == 0 {
        without_keys(m, resolved)
    } else {
        after_check(m, resolved, opened.drop_last()).insert(opened.last().0, opened.last().1)
    }
}

/// Records the outcome of one monitor check: forgets the incidents resolved
/// under the `resolved` keys, then records each newly opened incident.
pub fn apply_check<K: IncidentKey>(active: &mut ActiveIncidents<K>, resolved: &Vec<K>, opened: &Vec<(K, String)>)
    requires
        old(active).wf(),
    ensures
        final(active).wf(),
        final(active).view() == after_check(
            old(active).view(),
            resolved@,
            opened@.map_values(|e: (K, String)| (e.0, e.1@)),
        ),
{
    let ghost start = active.view();
    let ghost f = |e: (K, String)| (e.0, e.1@);
    let mut i: usize = 0;
    while i < resolved.len()
        invariant
            active.wf(),
            i <= resolved@.len(),
            active.view() == without_keys(start, resolved@.subrange(0, i as int)),
        decreases resolved@.len() - i,
    {
        proof {
            assert(resolved@.subrange(0, i + 1).drop_last() =~= resolved@.subrange(0, i as int));
        }
        active.remove(&resolved[i]);
        i = i + 1;
    }
    proof {
        assert(resolved@.subrange(0, resolved@.len() as int) =~= resolved@);
    }
    let mut j: usize = 0;
    while j < opened.len()
        invariant
            active.wf(),
            j <= opened@.len(),
            f == (|e: (K, String)| (e.0, e.1@)),
            active.view() == after_check(start, resolved@, opened@.subrange(0, j as int).map_values(f)),
        decreases opened@.len() - j,
    {
        let k = opened[j].0.copy_key();
        let id = opened[j].1.clone();
        proof {
            let next = opened@.subrange(0, j + 1).map_values(f);
            assert(next.drop_last() =~= opened@.subrange(0, j as int).map_values(f));
            assert(next.last() == f(opened@[j as int]));
        }
        active.insert(k, id);
        j = j + 1;
    }
    proof {
        assert(opened@.subrange(0, opened@.len() as int) =~= opened@);
    }
}

proof fn lemma_without_keys<K>(m: Map<K, Seq<char>>, keys: Seq<K>, k: K)
    ensures
        without_keys(m, keys).dom().contains(k) <==> (m.dom().contains(k) && !keys.contains(k)),
        without_keys(m, keys).dom().contains(k) ==> without_keys(m, keys)[k] == m[k],
    decreases keys.len(),
{
    if keys.len() > 0 {
        lemma_without_keys(m, keys.drop_last(), k);
        assert(keys.contains(k) <==> (keys.drop_last().contains(k) || keys.last() == k)) by {
            if keys.contains(k) {
                let i = choose|i: int| 0 <= i < keys.len() && keys[i] == k;
                if i < keys.len() - 1 {
                    assert(keys.drop_last()[i] == k);
                }
            }
            if keys.drop_last().contains(k) {
                let i = choose|i: int| 0 <= i < keys.drop_last().len() && keys.drop_last()[i] == k;
                assert(keys[i] == k);
            }
            if keys.last() == k {
                assert(keys[keys.len() - 1] == k);
            }
        }
    }
}

/// Whether some incident of `opened` is recorded under `k`.
pub open spec fn opens_key<K>(opened: Seq<(K, Seq<char>)>, k: K) -> bool {
    exists|j: int| 0 <= j < opened.len() && opened[j].0 == k
}

/// Law: after a check, an incident is open under a key exactly when the
/// check opened one there, or one was open before and the check did not
/// resolve it; an incident the check neither opened nor resolved keeps its id.
pub proof fn law_check_outcome<K>(
    m: Map<K, Seq<char>>,
    resolved: Seq<K>,
    opened: Seq<(K, Seq<char>)>,
    k: K,
)
    ensures
        after_check(m, resolved, opened).dom().contains(k) <==> (opens_key(opened, k) || (
        m.dom().contains(k) && !resolved.contains(k))),
        !opens_key(opened, k) && m.dom().contains(k) && !resolved.contains(k) ==> after_check(
            m,
            resolved,
            opened,
        )[k] == m[k],
    decreases opened.len(),
{
    if opened.len() == 0 {
        lemma_without_keys(m, resolved, k);
    } else {
        let prev = opened.drop_last();
        law_check_outcome(m, resolved, prev, k);
        if opens_key(opened, k) {
            let j = choose|j: int| 0 <= j < opened.len() && opened[j].0 == k;
            if j < opened.len() - 1 {
                assert(prev[j].0 == k);
            }
        }
        if opens_key(prev, k) {
            let j = choose|j: int| 0 <= j < prev.len() && prev[j].0 == k;
            assert(opened[j].0 == k);
        }
        if opened.last().0 == k {
            assert(opened[opened.len() - 1].0 == k);
        }
    }
}

/// Outcome of one probe of the public RPC endpoint.
#[derive(Debug, Clone, Copy, PartialEq, Eq, Structural)]
pub enum RpcProbe {
    /// The node answered that it is not syncing.
    Healthy,
    /// The node answered that it is syncing.
    Syncing,
    /// The probe failed or timed out.
    Failed,
}

/// What follows the first probe of a check.
#[derive(Debug, Clone, Copy, PartialEq, Eq, Structural)]
pub enum RpcFirstStep {
    /// Healthy; resolve the open incident when there is one.
    Healthy {
        /// Resolve the open incident.
        resolve: bool,
    },
    /// Not healthy: probe again after a pause.
    Recheck,
}

/// What follows the second probe of a check.
#[derive(Debug, Clone, Copy, PartialEq, Eq, Structural)]
pub enum RpcSecondStep {
    /// Recovered; resolve the open incident when there is one.
    Recovered {
        /// Resolve the open incident.
        resolve: bool,
    },
    /// Still unhealthy; open an incident unless one is open.
    Unhealthy {
        /// Open (or adopt) an incident.
        open: bool,
    },
}

/// The step after the first probe: healthy resolves an open incident, any
/// other outcome probes again.
pub open spec fn first_probe_step(probe: RpcProbe, incident_open: bool) -> RpcFirstStep {
    match probe {
        RpcProbe::Healthy => RpcFirstStep::Healthy { resolve: incident_open },
        _ => RpcFirstStep::Recheck,
    }
}

/// The step after the second probe: healthy resolves an open incident, any
/// other outcome opens one unless one is open.
pub open spec fn second_probe_step(probe: RpcProbe, incident_open: bool) -> RpcSecondStep {
    match probe {
        RpcProbe::Healthy => RpcSecondStep::Recovered { resolve: incident_open },
        _ => RpcSecondStep::Unhealthy { open: !incident_open },
    }
}

/// Decides the step after the first probe of the public RPC endpoint.
pub fn after_first_probe(probe: RpcProbe, incident_open: bool) -> (r: RpcFirstStep)
    ensures
        r == first_probe_step(probe, incident_open),
{
    match probe {
        RpcProbe::Healthy => RpcFirstStep::Healthy { resolve: incident_open },
        _ => RpcFirstStep::Recheck,
    }
}

/// Decides the step after the second probe of the public RPC endpoint: two
/// negative probes in a row report the endpoint as unavailable.
pub fn after_second_probe(probe: RpcProbe, incident_open: bool) -> (r: RpcSecondStep)
    ensures
        r == second_probe_step(probe, incident_open),
{
    match probe {
        RpcProbe::Healthy => RpcSecondStep::Recovered { resolve: incident_open },
        _ => RpcSecondStep::Unhealthy { open: !incident_open },
    }
}

/// Law: the public RPC monitor opens an incident only after two negative
/// probes in a row and only when none is open, and resolves one only after a
/// healthy probe and only when one is open.
pub proof fn law_rpc_incident_lifecycle(first: RpcProbe, second: RpcProbe, incident_open: bool)
    ensures
        first_probe_step(first, incident_open) == RpcFirstStep::Recheck ==> first != RpcProbe::Healthy,
        first_probe_step(first, incident_open) == (RpcFirstStep::Healthy { resolve: true })
            ==> first == RpcProbe::Healthy && incident_open,
        second_probe_step(second, incident_open) == (RpcSecondStep::Unhealthy { open: true })
            ==> second != RpcProbe::Healthy && !incident_open,
        second_probe_step(second, incident_open) == (RpcSecondStep::Recovered { resolve: true })
            ==> second == RpcProbe::Healthy && incident_open,
{
}

/// The marker of an incident that belongs to another status page.
pub open spec fn page_mismatch_text() -> Seq<char> {
    seq!['P', 'A', 'G', 'E', '_', 'M', 'I', 'S', 'M', 'A', 'T', 'C', 'H']
}

/// Whether a failed status-page request is worth retrying, from what the
/// error says of itself: never when its message names a page mismatch (a
/// configuration issue); always for timeouts and connection failures; for an
/// HTTP error status, exactly for server errors other than 429 (Too Many
/// Requests); otherwise not.
pub fn is_retryable(message: &str, is_timeout: bool, is_connect: bool, status: Option<u16>) -> (r:
    bool)
    ensures
        r == if has_infix(message@, page_mismatch_text()) {
            false
        } else if is_timeout || is_connect {
            true
        } else {
            match status {
                Some(s) => 500 <= s <= 599 && s != 429,
                None => false,
            }
        },
{
    let hay = crate::retries::chars_of(message);
    let marker = "PAGE_MISMATCH";
    proof {
        reveal_strlit("PAGE_MISMATCH");
        assert(marker@ =~= page_mismatch_text());
    }
    let needle = crate::retries::chars_of(marker);
    if crate::retries::vec_has_infix(&hay, &needle) {
        return false;
    }
    if is_timeout || is_connect {
        return true;
    }
    match status {
        Some(s) => 500 <= s && s <= 599 && s != 429,
        None => false,
    }
}

} // verus!
