//! Status-page incident payloads and the texts of the incidents each monitor opens.
use vstd::prelude::*;

use crate::text::{decimal, push_decimal};

verus! {

/// Incident-level state sent to the status page.
#[derive(Debug, Clone, Copy, PartialEq, Eq, Structural)]
pub enum IncidentState {
    /// Incident is being investigated.
    Investigating,
    /// Incident is identified.
    Identified,
    /// Incident is being monitored.
    Monitoring,
    /// Incident is resolved.
    Resolved,
}

/// Component health inside an incident update.
#[derive(Debug, Clone, Copy, PartialEq, Eq, Structural)]
pub enum ComponentHealth {
    /// Component is operational.
    Operational,
    /// Component is experiencing a partial outage.
    PartialOutage,
    /// Component is experiencing a major outage.
    MajorOutage,
}

/// Status for a single component.
#[derive(Debug, PartialEq, Eq)]
pub struct ComponentStatus {
    /// Component ID.
    pub id: String,
    /// Component health.
    pub status: ComponentHealth,
}

impl ComponentStatus {
    /// Create a new component status for a major outage.
    pub fn major_outage(id: &str) -> (r: Self)
        ensures
            r.id@ == id@,
            r.status == ComponentHealth::MajorOutage,
    {
        ComponentStatus { id: String::from_str(id), status: ComponentHealth::MajorOutage }
    }

    /// Create a new component status for an operational component.
    pub fn operational(id: &str) -> (r: Self)
        ensures
            r.id@ == id@,
            r.status == ComponentHealth::Operational,
    {
        ComponentStatus { id: String::from_str(id), status: ComponentHealth::Operational }
    }
}

/// Payload for creating a new incident.
#[derive(Debug, PartialEq, Eq)]
pub struct NewIncident {
    /// Incident name.
    pub name: String,
    /// Incident message/description.
    pub message: String,
    /// Incident status.
    pub status: IncidentState,
    /// Affected component IDs.
    pub components: Vec<String>,
    /// Component statuses.
    pub statuses: Vec<ComponentStatus>,
    /// Whether to notify subscribers.
    pub notify: bool,
    /// Optional start timestamp (RFC 3339).
    pub started: Option<String>,
}

/// Payload for resolving an incident.
#[derive(Debug, PartialEq, Eq)]
pub struct ResolveIncident {
    /// Status (resolved).
    pub status: IncidentState,
    /// Affected component IDs.
    pub components: Vec<String>,
    /// Component statuses.
    pub statuses: Vec<ComponentStatus>,
    /// Whether to notify subscribers.
    pub notify: bool,
    /// Time of the update (RFC 3339).
    pub started: Option<String>,
}

/// RFC 3339 rendering of the UTC instant `nanos` nanoseconds after the Unix
/// epoch, as `chrono` formats it.
pub uninterp spec fn rfc3339_of(nanos: i64) -> Seq<char>;

/// Formats an instant given in nanoseconds since the Unix epoch as RFC 3339
/// (`chrono::DateTime::from_timestamp_nanos` then `to_rfc3339`). Trusted to
/// give the named rendering of the instant; every `i64` is a representable
/// instant, so the call does not panic.
#[verifier::external_body]
pub(crate) fn rfc3339_from_nanos(nanos: i64) -> (r: String)
    ensures
        r@ == rfc3339_of(nanos),
{
    chrono::DateTime::from_timestamp_nanos(nanos).to_rfc3339()
}

/// The current UTC time in RFC 3339 (`chrono::Utc::now` then `to_rfc3339`).
/// Nothing is claimed of the text: it depends on the clock.
#[verifier::external_body]
fn now_rfc3339() -> (r: String) {
    chrono::Utc::now().to_rfc3339()
}

/// The creation payload of an investigated major outage of the one component
/// `component_id`, notifying subscribers, whose start time is the text
/// `started`.
pub fn incident_payload_at(component_id: &str, name: String, message: String, started: String) -> (r:
    NewIncident)
    ensures
        r.name == name,
        r.message == message,
        r.status == IncidentState::Investigating,
        r.components@.len() == 1,
        r.components@[0]@ == component_id@,
        r.statuses@.len() == 1,
        r.statuses@[0].id@ == component_id@,
        r.statuses@[0].status == ComponentHealth::MajorOutage,
        r.notify,
        r.started == Some(started),
{
    let mut components: Vec<String> = Vec::new();
    components.push(String::from_str(component_id));
    let mut statuses: Vec<ComponentStatus> = Vec::new();
    statuses.push(ComponentStatus::major_outage(component_id));
    NewIncident {
        name,
        message,
        status: IncidentState::Investigating,
        components,
        statuses,
        notify: true,
        started: Some(started),
    }
}

/// Build a standard incident creation payload for a given component: an
/// investigated major outage of that one component, notifying subscribers,
/// starting at `started` (nanoseconds since the Unix epoch, rendered as
/// RFC 3339).
pub fn build_incident_payload(component_id: &str, name: String, message: String, started: i64) -> (r:
    NewIncident)
    ensures
        r.name == name,
        r.message == message,
        r.status == IncidentState::Investigating,
        r.components@.len() == 1,
        r.components@[0]@ == component_id@,
        r.statuses@.len() == 1,
        r.statuses@[0].id@ == component_id@,
        r.statuses@[0].status == ComponentHealth::MajorOutage,
        r.notify,
        r.started matches Some(s) && s@ == rfc3339_of(started),
{
    let text = rfc3339_from_nanos(started);
    incident_payload_at(component_id, name, message, text)
}

/// The resolve payload that puts the one component `component_id` back to
/// operational, notifying subscribers, stamped with the text `at`.
pub fn resolve_payload_at(component_id: &str, at: String) -> (r: ResolveIncident)
    ensures
        r.status == IncidentState::Resolved,
        r.components@.len() == 1,
        r.components@[0]@ == component_id@,
        r.statuses@.len() == 1,
        r.statuses@[0].id@ == component_id@,
        r.statuses@[0].status == ComponentHealth::Operational,
        r.notify,
        r.started == Some(at),
{
    let mut components: Vec<String> = Vec::new();
    components.push(String::from_str(component_id));
    let mut statuses: Vec<ComponentStatus> = Vec::new();
    statuses.push(ComponentStatus::operational(component_id));
    ResolveIncident {
        status: IncidentState::Resolved,
        components,
        statuses,
        notify: true,
        started: Some(at),
    }
}

/// Build a standard incident resolve payload for a given component: the
/// component back to operational, notifying subscribers, stamped with the
/// current time (whatever the clock reads).
pub fn build_resolve_payload(component_id: &str) -> (r: ResolveIncident)
    ensures
        r.status == IncidentState::Resolved,
        r.components@.len() == 1,
        r.components@[0]@ == component_id@,
        r.statuses@.len() == 1,
        r.statuses@[0].id@ == component_id@,
        r.statuses@[0].status == ComponentHealth::Operational,
        r.notify,
        r.started is Some,
{
    let now = now_rfc3339();
    resolve_payload_at(component_id, now)
}

/// Name and message of the incident opened when no L2 head event arrived
/// within `threshold_secs`.
pub fn l2_head_incident_texts(threshold_secs: u64) -> (r: (String, String))
    ensures
        r.0@ == "No L2 head events - Possible Outage"@,
        r.1@ == "No L2 head event for "@ + decimal(threshold_secs as nat) + "s"@,
{
    let name = String::from_str("No L2 head events - Possible Outage");
    let mut message = String::from_str("No L2 head event for ");
    push_decimal(&mut message, threshold_secs);
    message.append("s");
    (name, message)
}

/// Name and message of the incident opened when no batch was proposed within
/// `threshold_secs` while L2 heads kept arriving.
pub fn batch_submission_incident_texts(threshold_secs: u64) -> (r: (String, String))
    ensures
        r.0@ == "No BatchProposed events - Possible Outage"@,
        r.1@ == "No batch event for "@ + decimal(threshold_secs as nat) + "s"@,
{
    let name = String::from_str("No BatchProposed events - Possible Outage");
    let mut message = String::from_str("No batch event for ");
    push_decimal(&mut message, threshold_secs);
    message.append("s");
    (name, message)
}

/// Name and message of the incident opened for a batch not proven within the
/// timeout; the threshold is shown in whole hours.
pub fn proof_timeout_incident_texts(batch_id: u64, age_hours: u64, timeout_secs: u64) -> (r: (
    String,
    String,
))
    ensures
        r.0@ == "Batch #"@ + decimal(batch_id as nat) + " Not Proven - Timeout"@,
        r.1@ == "Batch #"@ + decimal(batch_id as nat) + " has been waiting for proof for "@
            + decimal(age_hours as nat) + "h (threshold: "@ + decimal((timeout_secs / 3600) as nat)
            + "h)"@,
{
    let mut name = String::from_str("Batch #");
    push_decimal(&mut name, batch_id);
    name.append(" Not Proven - Timeout");
    let mut message = String::from_str("Batch #");
    push_decimal(&mut message, batch_id);
    message.append(" has been waiting for proof for ");
    push_decimal(&mut message, age_hours);
    message.append("h (threshold: ");
    push_decimal(&mut message, timeout_secs / 3600);
    message.append("h)");
    (name, message)
}

/// Name and message of the incident opened for a batch not verified within
/// the timeout; the threshold is shown in whole hours.
pub fn verify_timeout_incident_texts(batch_id: u64, age_hours: u64, timeout_secs: u64) -> (r: (
    String,
    String,
))
    ensures
        r.0@ == "Batch #"@ + decimal(batch_id as nat) + " Not Verified - Timeout"@,
        r.1@ == "Batch #"@ + decimal(batch_id as nat)
            + " has been waiting for verification for over "@ + decimal(age_hours as nat)
            + "h (threshold: "@ + decimal((timeout_secs / 3600) as nat) + "h)"@,
{
    let mut name = String::from_str("Batch #");
    push_decimal(&mut name, batch_id);
    name.append(" Not Verified - Timeout");
    let mut message = String::from_str("Batch #");
    push_decimal(&mut message, batch_id);
    message.append(" has been waiting for verification for over ");
    push_decimal(&mut message, age_hours);
    message.append("h (threshold: ");
    push_decimal(&mut message, timeout_secs / 3600);
    message.append("h)");
    (name, message)
}

/// Name and message of the incident opened when the public RPC endpoint is
/// unreachable or syncing.
pub fn public_rpc_incident_texts() -> (r: (String, String))
    ensures
        r.0@ == "Public RPC Unavailable"@,
        r.1@ == "Public RPC endpoint is unreachable or syncing"@,
{
    (
        String::from_str("Public RPC Unavailable"),
        String::from_str("Public RPC endpoint is unreachable or syncing"),
    )
}

/// The incident id recorded in dry-run mode, when no incident is created:
/// `dryrun:` followed by the creation time in milliseconds.
pub fn dry_run_incident_id(now_millis: u64) -> (r: String)
    ensures
        r@ == "dryrun:"@ + decimal(now_millis as nat),
{
    let mut id = String::from_str("dryrun:");
    push_decimal(&mut id, now_millis);
    id
}

/// An open incident as the status page lists it: its id and the ids of the
/// components it touches.
#[derive(Debug)]
pub struct IncidentSummary {
    /// Incident id.
    pub id: String,
    /// Ids of the affected components.
    pub component_ids: Vec<String>,
}

/// Whether an incident touches the component `component_id`.
pub open spec fn touches(inc: IncidentSummary, component_id: Seq<char>) -> bool {
    exists|j: int| 0 <= j < inc.component_ids@.len() && inc.component_ids@[j]@ == component_id
}

/// Whether any of the first `n` incidents touches the component.
pub open spec fn touched_before(incidents: Seq<IncidentSummary>, component_id: Seq<char>, n: int) -> bool {
    exists|i: int| 0 <= i < n && touches(incidents[i], component_id)
}

fn touches_exec(inc: &IncidentSummary, component_id: &str) -> (r: bool)
    ensures
        r == touches(*inc, component_id@),
{
    let mut j: usize = 0;
    while j < inc.component_ids.len()
        invariant
            j <= inc.component_ids@.len(),
            forall|k: int| 0 <= k < j ==> inc.component_ids@[k]@ != component_id@,
        decreases inc.component_ids@.len() - j,
    {
        if crate::text::str_equal(inc.component_ids[j].as_str(), component_id) {
            return true;
        }
        j = j + 1;
    }
    false
}

/// The id of the first listed open incident that touches `component_id`, if any.
pub fn find_open_incident(incidents: &Vec<IncidentSummary>, component_id: &str) -> (r: Option<String>)
    ensures
        match r {
            Some(id) => exists|i: int|
                0 <= i < incidents@.len() && touches(incidents@[i], component_id@)
                    && !touched_before(incidents@, component_id@, i) && id@ == incidents@[i].id@,
            None => !touched_before(incidents@, component_id@, incidents@.len() as int),
        },
{
    let mut i: usize = 0;
    while i < incidents.len()
        invariant
            i <= incidents@.len(),
            !touched_before(incidents@, component_id@, i as int),
        decreases incidents@.len() - i,
    {
        if touches_exec(&incidents[i], component_id) {
            return Some(incidents[i].id.clone());
        }
        proof {
            assert forall|k: int| 0 <= k < i + 1 implies !touches(#[trigger] incidents@[k], component_id@) by {
                if k < i {
                    assert(!touched_before(incidents@, component_id@, i as int));
                }
            }
        }
        i = i + 1;
    }
    None
}

} // verus!
