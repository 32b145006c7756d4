use taikoscope::incident::{
    batch_submission_incident_texts, build_incident_payload, build_resolve_payload,
    dry_run_incident_id, l2_head_incident_texts, proof_timeout_incident_texts,
    incident_payload_at, public_rpc_incident_texts, resolve_payload_at,
    verify_timeout_incident_texts,
    ComponentHealth, ComponentStatus, IncidentState,
};

#[test]
fn create_incident_payload_builds_expected() {
    let started_nanos: i64 = 1_747_036_080_123_456_789;
    let payload = build_incident_payload("comp1", "name".into(), "msg".into(), started_nanos);
    assert_eq!(payload.name, "name");
    assert_eq!(payload.message, "msg");
    assert_eq!(payload.status, IncidentState::Investigating);
    assert_eq!(payload.components, vec!["comp1".to_owned()]);
    assert_eq!(payload.statuses, vec![ComponentStatus::major_outage("comp1")]);
    assert!(payload.notify);
    let expected = chrono::DateTime::from_timestamp_nanos(started_nanos).to_rfc3339();
    assert_eq!(payload.started.as_deref(), Some(expected.as_str()));
}

#[test]
fn create_resolve_payload_builds_expected() {
    let payload = build_resolve_payload("comp1");
    assert_eq!(payload.status, IncidentState::Resolved);
    assert_eq!(payload.components, vec!["comp1".to_owned()]);
    assert_eq!(payload.statuses, vec![ComponentStatus::operational("comp1")]);
    assert!(payload.notify);
    assert!(payload.started.is_some());
}

#[test]
fn component_status_constructors() {
    assert_eq!(ComponentStatus::major_outage("x").status, ComponentHealth::MajorOutage);
    assert_eq!(ComponentStatus::operational("x").status, ComponentHealth::Operational);
    assert_eq!(ComponentStatus::operational("x").id, "x");
}

#[test]
fn rfc3339_rendering_of_an_instant() {
    let payload = build_incident_payload("c", String::new(), String::new(), 1_747_036_080_000_000_000);
    assert_eq!(payload.started.as_deref(), Some("2025-05-12T07:48:00+00:00"));
}

#[test]
fn payloads_carry_the_given_start_text() {
    let created = incident_payload_at("c7", "n".into(), "m".into(), "T0".into());
    assert_eq!(created.started.as_deref(), Some("T0"));
    assert_eq!(created.components, vec!["c7".to_owned()]);
    assert_eq!(created.statuses, vec![ComponentStatus::major_outage("c7")]);
    let resolved = resolve_payload_at("c7", "T1".into());
    assert_eq!(resolved.started.as_deref(), Some("T1"));
    assert_eq!(resolved.status, IncidentState::Resolved);
    assert_eq!(resolved.statuses, vec![ComponentStatus::operational("c7")]);
    assert!(resolved.notify);
}

#[test]
fn monitor_incident_texts() {
    let (name, message) = l2_head_incident_texts(30);
    assert_eq!(name, "No L2 head events - Possible Outage");
    assert_eq!(message, "No L2 head event for 30s");
    let (name, message) = batch_submission_incident_texts(60);
    assert_eq!(name, "No BatchProposed events - Possible Outage");
    assert_eq!(message, "No batch event for 60s");
    let (name, message) = public_rpc_incident_texts();
    assert_eq!(name, "Public RPC Unavailable");
    assert_eq!(message, "Public RPC endpoint is unreachable or syncing");
}

#[test]
fn batch_timeout_incident_texts() {
    let (name, message) = proof_timeout_incident_texts(42, 5, 3 * 3600 + 59);
    assert_eq!(name, "Batch #42 Not Proven - Timeout");
    assert_eq!(message, "Batch #42 has been waiting for proof for 5h (threshold: 3h)");
    let (name, message) = verify_timeout_incident_texts(7, 0, 3600);
    assert_eq!(name, "Batch #7 Not Verified - Timeout");
    assert_eq!(message, "Batch #7 has been waiting for verification for over 0h (threshold: 1h)");
}

#[test]
fn dry_run_ids() {
    assert_eq!(dry_run_incident_id(1234), "dryrun:1234");
    assert_eq!(dry_run_incident_id(0), "dryrun:0");
}
