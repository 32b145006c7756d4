use taikoscope::active_incidents::ActiveIncidents;
use taikoscope::monitors::{
    apply_check,
    after_first_probe, after_second_probe, batch_submission_check, batch_submission_decide,
    filter_new_batches, hours_since, incident_start, incidents_to_resolve, is_retryable,
    l2_head_decide, mark_healthy_step, new_unverified_incidents, reporting_enabled,
    resolve_catch_all_if_clear, AgeError, MarkHealthyStep, MonitorAction, RpcFirstStep, RpcProbe,
    RpcSecondStep,
};

const SEC: i64 = 1_000_000_000;
const SEC_NANOS: u128 = 1_000_000_000;

#[test]
fn l2_head_monitor_scenarios() {
    let now = 10_000 * SEC;
    // outage begins with no incident: open
    assert_eq!(l2_head_decide(false, now - 120 * SEC, now, 60 * SEC_NANOS), Ok(MonitorAction::OpenIncident));
    // still down with an incident: nothing new
    assert_eq!(l2_head_decide(true, now - 120 * SEC, now, 60 * SEC_NANOS), Ok(MonitorAction::Nothing));
    // recovered with an incident: resolve
    assert_eq!(l2_head_decide(true, now - 10 * SEC, now, 60 * SEC_NANOS), Ok(MonitorAction::MarkHealthy));
    // healthy, no incident: nothing
    assert_eq!(l2_head_decide(false, now - 10 * SEC, now, 60 * SEC_NANOS), Ok(MonitorAction::Nothing));
    // exactly at the threshold counts as healthy
    assert_eq!(l2_head_decide(false, now - 60 * SEC, now, 60 * SEC_NANOS), Ok(MonitorAction::Nothing));
    assert_eq!(l2_head_decide(false, now + 1, now, 60 * SEC_NANOS), Err(AgeError::InFuture));
    // the threshold counts to the nanosecond: 60.5 s tolerates 60.4 s but not 60.6 s
    let threshold = 60_500_000_000u128;
    assert_eq!(l2_head_decide(false, now - 60_400_000_000, now, threshold), Ok(MonitorAction::Nothing));
    assert_eq!(l2_head_decide(false, now - 60_600_000_000, now, threshold), Ok(MonitorAction::OpenIncident));
}

#[test]
fn batch_submission_monitor_scenarios() {
    let now = 100_000 * SEC;
    // scenario 1: no incident, batch unhealthy, L2 healthy: open
    assert_eq!(
        batch_submission_decide(false, now - 60 * SEC, now - 10 * SEC, now, 30 * SEC_NANOS),
        Ok(MonitorAction::OpenIncident)
    );
    // scenario 2: active incident, batch still unhealthy: remains
    assert_eq!(
        batch_submission_decide(true, now - 60 * SEC, now - 20 * SEC, now, 30 * SEC_NANOS),
        Ok(MonitorAction::Nothing)
    );
    // scenario 3: active incident, batch healthy: resolve
    assert_eq!(
        batch_submission_decide(true, now - 10 * SEC, now - 20 * SEC, now, 30 * SEC_NANOS),
        Ok(MonitorAction::MarkHealthy)
    );
    // scenario 4: no incident, both healthy: nothing
    assert_eq!(
        batch_submission_decide(false, now - 25 * SEC, now - 25 * SEC, now, 30 * SEC_NANOS),
        Ok(MonitorAction::Nothing)
    );
    // scenario 5: no incident, both unhealthy: nothing
    assert_eq!(
        batch_submission_decide(false, now - 40 * SEC, now - 35 * SEC, now, 30 * SEC_NANOS),
        Ok(MonitorAction::Nothing)
    );
    // startup grace: very old batch data opens nothing
    assert_eq!(
        batch_submission_decide(false, now - 7200 * SEC, now - 10 * SEC, now, 30 * SEC_NANOS),
        Ok(MonitorAction::Nothing)
    );
    // a day-old timestamp skips the periodic check
    assert_eq!(
        batch_submission_check(true, now - 10 * SEC, now - 90_000 * SEC, now, 30 * SEC_NANOS),
        Ok(MonitorAction::Nothing)
    );
    assert_eq!(
        batch_submission_check(false, now - 60 * SEC, now - 10 * SEC, now, 30 * SEC_NANOS),
        Ok(MonitorAction::OpenIncident)
    );
}

#[test]
fn mark_healthy_steps() {
    assert_eq!(mark_healthy_step(false, Some(true)), MarkHealthyStep::NoIncident);
    assert_eq!(mark_healthy_step(true, Some(true)), MarkHealthyStep::ResolveAndForget);
    assert_eq!(mark_healthy_step(true, Some(false)), MarkHealthyStep::ForgetOnly);
    assert_eq!(mark_healthy_step(true, None), MarkHealthyStep::CheckFailed);
}

#[test]
fn reporting_needs_a_component_id() {
    assert!(!reporting_enabled(""));
    assert!(reporting_enabled("comp1"));
}

#[test]
fn filter_new_batches_only_returns_untracked() {
    let mut active: ActiveIncidents<(u64, u64)> = ActiveIncidents::new();
    active.insert((1, 1), "id".to_owned());
    let now = 5 * SEC;
    let batches = vec![(1, 1, now), (2, 2, now)];
    let filtered = filter_new_batches(&active, &batches);
    assert_eq!(filtered, vec![(2, 2, now)]);
}

#[test]
fn catch_all_only_true_only_for_catch_all() {
    let mut active: ActiveIncidents<(u64, u64)> = ActiveIncidents::new();
    assert!(!active.catch_all_only());
    active.insert((0, 0), "id".to_owned());
    assert!(active.catch_all_only());
    active.insert((1, 1), "other".to_owned());
    assert!(!active.catch_all_only());
}

#[test]
fn active_incidents_insert_replace_remove() {
    let mut active: ActiveIncidents<u64> = ActiveIncidents::new();
    assert!(active.is_empty());
    active.insert(5, "a".to_owned());
    active.insert(6, "b".to_owned());
    active.insert(5, "c".to_owned());
    assert_eq!(active.len(), 2);
    assert_eq!(active.get(&5), Some("c".to_owned()));
    active.remove(&5);
    assert_eq!(active.get(&5), None);
    assert!(active.contains_key(&6));
    active.remove(&99);
    assert_eq!(active.len(), 1);
}

#[test]
fn unit_key_holds_a_single_incident() {
    let mut active: ActiveIncidents<()> = ActiveIncidents::new();
    active.insert((), "x".to_owned());
    active.insert((), "y".to_owned());
    assert_eq!(active.len(), 1);
    assert_eq!(active.get(&()), Some("y".to_owned()));
    assert!(active.catch_all_only());
}

#[test]
fn proven_batches_resolve_their_incidents_not_the_catch_all() {
    let mut active: ActiveIncidents<(u64, u64)> = ActiveIncidents::new();
    active.insert((0, 0), "catch".to_owned());
    active.insert((10, 1), "one".to_owned());
    active.insert((11, 2), "two".to_owned());
    let resolve = incidents_to_resolve(&active, &vec![2, 0, 7]);
    assert_eq!(resolve, vec![((11, 2), "two".to_owned())]);
}

#[test]
fn unverified_batches_open_once_and_only_when_overdue() {
    let mut active: ActiveIncidents<u64> = ActiveIncidents::new();
    active.insert(3, "x".to_owned());
    let now = 100_000 * SEC;
    let hour = 3600 * SEC;
    let batches = vec![
        (1, 1, now - 2 * hour),
        (1, 1, now - 2 * hour),
        (2, 2, now - hour),
        (3, 3, now - 5 * hour),
        (4, 4, now - 3 * hour),
    ];
    let opened = new_unverified_incidents(&active, &batches, now, 3600 * SEC_NANOS);
    assert_eq!(opened, vec![(1, 1, now - 2 * hour), (4, 4, now - 3 * hour)]);
}

#[test]
fn verification_catch_all_resolution() {
    let mut active: ActiveIncidents<u64> = ActiveIncidents::new();
    active.insert(0, "catch".to_owned());
    assert!(resolve_catch_all_if_clear(&active, true));
    assert!(!resolve_catch_all_if_clear(&active, false));
    active.insert(4, "four".to_owned());
    assert!(!resolve_catch_all_if_clear(&active, true));
}

#[test]
fn hours_and_incident_start() {
    let hour = 3600 * SEC;
    assert_eq!(hours_since(0, 5 * hour + 10), 5);
    assert_eq!(hours_since(0, hour - 1), 0);
    assert_eq!(incident_start(10 * SEC, 3600 * SEC_NANOS), 3610 * SEC);
}

#[test]
fn public_rpc_probe_steps() {
    assert_eq!(after_first_probe(RpcProbe::Healthy, true), RpcFirstStep::Healthy { resolve: true });
    assert_eq!(after_first_probe(RpcProbe::Syncing, false), RpcFirstStep::Recheck);
    assert_eq!(after_first_probe(RpcProbe::Failed, true), RpcFirstStep::Recheck);
    assert_eq!(after_second_probe(RpcProbe::Healthy, false), RpcSecondStep::Recovered { resolve: false });
    assert_eq!(after_second_probe(RpcProbe::Failed, false), RpcSecondStep::Unhealthy { open: true });
    assert_eq!(after_second_probe(RpcProbe::Syncing, true), RpcSecondStep::Unhealthy { open: false });
}

#[test]
fn is_retryable_returns_false_for_http_429() {
    assert!(!is_retryable("HTTP status client error (429 Too Many Requests)", false, false, Some(429)));
}

#[test]
fn retryable_error_classification() {
    assert!(is_retryable("server error", false, false, Some(503)));
    assert!(!is_retryable("not found", false, false, Some(404)));
    assert!(is_retryable("timed out", true, false, None));
    assert!(is_retryable("connect failed", false, true, None));
    assert!(!is_retryable("error PAGE_MISMATCH", true, false, Some(500)));
    assert!(!is_retryable("other", false, false, None));
}

#[test]
fn a_check_forgets_resolved_and_records_opened_incidents() {
    let mut active: ActiveIncidents<u64> = ActiveIncidents::new();
    active.insert(0, "catch".to_owned());
    active.insert(5, "five".to_owned());
    active.insert(6, "six".to_owned());
    apply_check(&mut active, &vec![5, 9], &vec![(7, "seven".to_owned()), (6, "six-again".to_owned())]);
    assert_eq!(active.get(&0), Some("catch".to_owned()));
    assert_eq!(active.get(&5), None);
    assert_eq!(active.get(&6), Some("six-again".to_owned()));
    assert_eq!(active.get(&7), Some("seven".to_owned()));
    assert_eq!(active.len(), 3);
}
