use splendor::action::{Action, SideEffectClass};
use splendor::clock::{Span, Timestamp};
use splendor::daemon::{
    action_events, action_request, daemon_security_code, invalid_run, lifecycle_event, local_percept,
    lock_error, percepts_appended, record_run_event, registrations_for_request, replay_response, trace_error,
    validate_daemon_request, validate_trace_order, ApiError, AuditAttribution, CallerCredential,
    ClientPrincipal, CreateRunRequest, CredentialAudience, DaemonState, DaemonActionCandidate,
    DaemonConfig, DaemonEndpoint, DaemonSecurityError, GatewayVerificationState, LifecycleKind,
    LifecycleRequest, PerceptQueue, RegisteredAction, ReplayRequest, RunStatus, SubmitActionRequest,
    TraceQuery, TraceRecord, trace_page,
};
use splendor::trace::{TraceError, TraceSink, TraceStoreError};
use splendor::scheduler::{Scheduler, SchedulerConfig};
use splendor::gateway::UnimplementedGateway;
use splendor::state::{DataRef, SnapshotId, StateData, StateMetadata, StateSnapshot, StateStore, StateStoreError};
use splendor::gateway::{ActionOutcome, ActionStatus};
use splendor::ids::{ActionId, AgentId, RunId, StateNodeId, TenantId, TraceEventId};
use splendor::json::Json;
use splendor::scheduler::SchedulerError;
use splendor::state::{EndpointScope, RevocationStatus, WorkOrderAuthorization, WorkOrderSignature};
use splendor::trace::{TraceEvent, TraceEventKind, TraceIdentity};
use splendor::verification::VerificationResult;

fn uuid(value: u128) -> String {
    let h = format!("{:032x}", value);
    format!("{}-{}-{}-{}-{}", &h[0..8], &h[8..12], &h[12..16], &h[16..20], &h[20..32])
}


fn now_utc() -> Timestamp {
    Timestamp::from_unix_nanos(time::OffsetDateTime::now_utc().unix_timestamp_nanos())
}

fn tenant() -> TenantId {
    TenantId::from_u128(100)
}

fn agent() -> AgentId {
    AgentId::from_u128(200)
}

fn in_one_hour() -> Timestamp {
    now_utc().plus(&Span::seconds(3600))
}

fn work_order(tenant_id: TenantId, agent_id: AgentId, run_id: Option<RunId>, scopes: Vec<EndpointScope>) -> WorkOrderAuthorization {
    WorkOrderAuthorization {
        work_order_id: 1,
        tenant_id,
        agent_id,
        run_id,
        allowed_scopes: scopes,
        expires_at: in_one_hour(),
        signature: Some(WorkOrderSignature { key_id: "key".to_string(), signature: "sig".to_string() }),
        revocation: RevocationStatus::Active,
    }
}

fn attribution() -> AuditAttribution {
    AuditAttribution {
        principal: ClientPrincipal { app_id: "app_test".to_string(), client_id: "client_test".to_string() },
        credential_id: None,
        requested_at: now_utc(),
    }
}

fn action(name: &str) -> Action {
    Action {
        name: name.to_string(),
        params: Json::Object(Vec::new()),
        side_effect_class: SideEffectClass::External,
        required_permissions: Vec::new(),
        preconditions: Vec::new(),
        postconditions: Vec::new(),
    }
}

fn create_request(run_id: Option<RunId>) -> CreateRunRequest {
    CreateRunRequest {
        tenant_id: tenant(),
        agent_id: agent(),
        work_order: work_order(tenant(), agent(), run_id, vec![EndpointScope::RunsCreate]),
        credential: None,
        audit_attribution: Some(attribution()),
        allowed_actions: vec!["allowed_action".to_string()],
        allowed_adapters: vec!["daemon.local".to_string()],
        allowed_permissions: Vec::new(),
        policy_actions: Vec::new(),
        registered_actions: Vec::new(),
        allowed_percept_schemas: vec!["splendor.percept.test.v1".to_string()],
        allowed_percept_sources: vec!["daemon-client-local".to_string()],
        initial_state: None,
        snapshot_interval: None,
        policy_bundle_required: false,
        policy_bundle: None,
    }
}

fn lifecycle(work_order: Option<WorkOrderAuthorization>) -> LifecycleRequest {
    LifecycleRequest { credential: None, work_order, audit_attribution: Some(attribution()), reason: Some("test".to_string()) }
}

fn record(run_id: RunId, sequence: u64, kind: TraceEventKind) -> TraceRecord {
    TraceRecord {
        run_id,
        sequence,
        event: TraceEvent {
            trace_event_id: TraceEventId::from_run_sequence(&run_id, sequence),
            run_id,
            sequence,
            timestamp: now_utc(),
            identity: TraceIdentity::for_run(run_id),
            kind,
        },
    }
}

fn created_daemon() -> (DaemonState, RunId) {
    let mut daemon = DaemonState::local_dev();
    let run_id = RunId::from_u128(300);
    let created = daemon.create_run(create_request(Some(run_id)), RunId::from_u128(999), now_utc()).expect("created");
    (daemon, created.run_id)
}

fn code(e: &ApiError) -> &str {
    e.code.as_str()
}

#[test]
fn helper_error_mappings_and_local_percept_are_stable() {
    let security_errors = vec![
        (DaemonSecurityError::AnonymousNonDevCall, "anonymous_non_dev_call"),
        (DaemonSecurityError::MissingScope { scope: EndpointScope::RunsCreate }, "missing_scope"),
        (DaemonSecurityError::WrongCredentialBinding, "wrong_credential_binding"),
        (DaemonSecurityError::WrongAudience, "wrong_audience"),
        (DaemonSecurityError::CredentialExpired, "credential_expired"),
        (DaemonSecurityError::CredentialRevoked { reason: "test".to_string() }, "credential_revoked"),
        (DaemonSecurityError::MissingWorkOrder, "missing_work_order"),
        (DaemonSecurityError::UnsignedWorkOrder, "unsigned_work_order"),
        (DaemonSecurityError::ExpiredWorkOrder, "expired_work_order"),
        (DaemonSecurityError::RevokedWorkOrder { reason: "test".to_string() }, "revoked_work_order"),
        (DaemonSecurityError::IncompatibleWorkOrder, "incompatible_work_order"),
        (DaemonSecurityError::MissingAuditAttribution, "missing_audit_attribution"),
        (DaemonSecurityError::AttributionMismatch, "attribution_mismatch"),
        (DaemonSecurityError::InvalidDevModeBinding, "invalid_dev_mode_binding"),
        (DaemonSecurityError::DisallowedPercept, "disallowed_percept"),
        (DaemonSecurityError::MissingTraceRedactionPolicy, "missing_trace_redaction_policy"),
        (DaemonSecurityError::ActionMissingTraceLink, "action_missing_trace_link"),
        (DaemonSecurityError::ActionGatewayBypassed, "action_gateway_bypassed"),
        (DaemonSecurityError::ClientInsecureFallback, "client_insecure_fallback"),
    ];
    for (error, expected) in security_errors {
        assert_eq!(daemon_security_code(&error), expected);
    }

    let scheduler_error = ApiError::from_scheduler(&SchedulerError::NoAgents);
    assert_eq!(scheduler_error.status, 500);
    assert_eq!(scheduler_error.code, "scheduler_error");

    let run_not_found = trace_error(&TraceStoreError::RunNotFound);
    assert_eq!(run_not_found.status, 404);
    assert_eq!(run_not_found.code, "invalid_run");
    let trace_store_error = trace_error(&TraceStoreError::Poisoned);
    assert_eq!(trace_store_error.status, 500);
    assert_eq!(trace_store_error.code, "trace_store_error");

    let percept = local_percept("splendor.percept.test.v1", Json::Object(vec![("ok".to_string(), Json::Bool(true))]));
    assert_eq!(percept.schema, "splendor.percept.test.v1");
    assert_eq!(percept.provenance.source, "daemon-client-local");
}

#[test]
fn trace_order_validation_accepts_contiguous_run_records_and_rejects_mismatch() {
    let run_id = RunId::from_u128(41);
    let records = vec![record(run_id, 0, TraceEventKind::RunStarted), record(run_id, 1, TraceEventKind::RunStarted)];
    validate_trace_order(&records, &run_id).expect("contiguous order");

    let wrong_run = RunId::from_u128(42);
    let error = validate_trace_order(&records, &wrong_run).expect_err("wrong run denied");
    assert_eq!(error.status, 409);
    assert_eq!(error.code, "trace_order_invalid");
}

#[test]
fn registration_defaults_and_trace_recording_fail_closed_paths_are_stable() {
    let mut request = create_request(None);
    request.allowed_actions = Vec::new();
    request.allowed_adapters = Vec::new();
    request.policy_actions = vec![DaemonActionCandidate {
        action: action("policy_only"),
        adapter: None,
        quota_usage: None,
        satisfied_preconditions: Vec::new(),
    }];
    let registrations = registrations_for_request(&request);
    assert_eq!(registrations.len(), 1);
    assert_eq!(registrations[0].name, "policy_only");
    assert_eq!(registrations[0].adapter, "daemon.local");

    let lock = lock_error();
    assert_eq!(lock.status, 500);
    assert_eq!(lock.code, "runtime_lock_error");

    let (daemon, run_id) = created_daemon();
    let response = daemon.inspect_response(0, 0);
    assert_eq!(response.agent_id, agent());
    assert_eq!(response.run_id, run_id);
    assert!(response.state_head.is_none());

    let mut scheduler: Scheduler<NullSink, UnimplementedGateway, NoStore> =
        Scheduler::new(SchedulerConfig { tick_budget: None, tick_interval: None });
    let error = record_run_event(&mut scheduler, &agent(), TraceEventKind::RunStopped { reason: Some("unit".to_string()) })
        .expect_err("empty scheduler cannot record agent event");
    assert_eq!(error.status, 500);
    assert_eq!(error.code, "trace_error");
    assert_eq!(error.message, "no agents registered");
}

struct NullSink;

impl TraceSink for NullSink {
    fn record(&mut self, _event: &TraceEvent) -> Result<(), TraceError> {
        Ok(())
    }
}

struct NoStore;

impl StateStore for NoStore {
    fn put_state(&mut self, _state: StateData) -> Result<DataRef, StateStoreError> {
        Err(StateStoreError::Backend("no store".to_string()))
    }

    fn commit_node(&mut self, _parents: Vec<StateNodeId>, _data: DataRef, _metadata: StateMetadata) -> Result<StateNodeId, StateStoreError> {
        Err(StateStoreError::Backend("no store".to_string()))
    }

    fn snapshot(&mut self, _node_id: &StateNodeId) -> Result<SnapshotId, StateStoreError> {
        Err(StateStoreError::Backend("no store".to_string()))
    }

    fn load_snapshot(&self, _snapshot_id: &SnapshotId) -> Result<StateSnapshot, StateStoreError> {
        Err(StateStoreError::Backend("no store".to_string()))
    }

    fn import_snapshot(&mut self, _snapshot: &StateSnapshot, _metadata: StateMetadata) -> Result<(StateNodeId, SnapshotId), StateStoreError> {
        Err(StateStoreError::Backend("no store".to_string()))
    }
}

#[test]
fn registrations_keep_explicit_then_allowed_then_policy_without_duplicates() {
    let mut request = create_request(None);
    request.registered_actions = vec![RegisteredAction { name: "explicit".to_string(), adapter: "custom".to_string() }];
    request.allowed_actions = vec!["explicit".to_string(), "allowed".to_string(), "allowed".to_string()];
    request.allowed_adapters = vec!["first".to_string(), "second".to_string()];
    request.policy_actions = vec![
        DaemonActionCandidate { action: action("allowed"), adapter: Some("other".to_string()), quota_usage: None, satisfied_preconditions: Vec::new() },
        DaemonActionCandidate { action: action("policy"), adapter: Some("policy.adapter".to_string()), quota_usage: None, satisfied_preconditions: Vec::new() },
    ];
    let regs: Vec<(String, String)> = registrations_for_request(&request).into_iter().map(|r| (r.name, r.adapter)).collect();
    assert_eq!(
        regs,
        vec![
            ("explicit".to_string(), "custom".to_string()),
            ("allowed".to_string(), "first".to_string()),
            ("policy".to_string(), "policy.adapter".to_string()),
        ]
    );
}

#[test]
fn create_run_rejects_incompatible_and_duplicate_work_orders() {
    let mut daemon = DaemonState::local_dev();
    let mut incompatible = create_request(None);
    incompatible.work_order.agent_id = AgentId::from_u128(201);
    let error = daemon.create_run(incompatible, RunId::from_u128(1), now_utc()).expect_err("incompatible");
    assert_eq!(error.status, 403);
    assert_eq!(code(&error), "incompatible_work_order");

    let duplicate_run = RunId::from_u128(77);
    let created = daemon.create_run(create_request(Some(duplicate_run)), RunId::from_u128(2), now_utc()).expect("created");
    assert_eq!(created.run_id, duplicate_run);
    assert_eq!(created.status, RunStatus::Created);
    let error = daemon.create_run(create_request(Some(duplicate_run)), RunId::from_u128(3), now_utc()).expect_err("duplicate");
    assert_eq!(error.status, 409);
    assert_eq!(code(&error), "run_already_exists");
    assert_eq!(daemon.runs().len(), 1);
}

#[test]
fn create_run_uses_fresh_id_without_work_order_run() {
    let mut daemon = DaemonState::local_dev();
    let created = daemon.create_run(create_request(None), RunId::from_u128(555), now_utc()).expect("created");
    assert_eq!(created.run_id, RunId::from_u128(555));
}

#[test]
fn create_run_requires_scope_signature_and_availability() {
    let mut daemon = DaemonState::local_dev();
    let mut unsigned = create_request(None);
    unsigned.work_order.signature = None;
    let error = daemon.create_run(unsigned, RunId::from_u128(1), now_utc()).expect_err("unsigned");
    assert_eq!(code(&error), "unsigned_work_order");

    let mut unscoped = create_request(None);
    unscoped.work_order.allowed_scopes = vec![EndpointScope::TraceRead];
    let error = daemon.create_run(unscoped, RunId::from_u128(1), now_utc()).expect_err("scope");
    assert_eq!(code(&error), "missing_scope");
    assert_eq!(error.status, 403);

    daemon.set_runtime_available(false);
    let error = daemon.create_run(create_request(None), RunId::from_u128(1), now_utc()).expect_err("unavailable");
    assert_eq!(error.status, 503);
    assert_eq!(code(&error), "runtime_unavailable");
}

#[test]
fn lifecycle_resume_requires_paused_run_and_matching_agent() {
    let (mut daemon, run_id) = created_daemon();
    let resume_order = Some(work_order(tenant(), agent(), Some(run_id), vec![EndpointScope::RunsResume]));
    let error = daemon.authorize_lifecycle(&run_id, LifecycleKind::Resume, &lifecycle(resume_order.clone()), now_utc()).expect_err("not paused");
    assert_eq!(error.status, 409);
    assert_eq!(code(&error), "invalid_run_state");

    let index = daemon.authorize_lifecycle(&run_id, LifecycleKind::Pause, &lifecycle(None), now_utc()).expect("pause");
    daemon.set_status(index, RunStatus::Paused, now_utc());
    let wrong_agent = Some(work_order(tenant(), AgentId::from_u128(9), Some(run_id), vec![EndpointScope::RunsResume]));
    let error = daemon.authorize_lifecycle(&run_id, LifecycleKind::Resume, &lifecycle(wrong_agent), now_utc()).expect_err("wrong agent");
    assert_eq!(error.status, 403);
    assert_eq!(code(&error), "incompatible_work_order");
    assert!(daemon.authorize_lifecycle(&run_id, LifecycleKind::Resume, &lifecycle(resume_order), now_utc()).is_ok());
}

#[test]
fn stopped_runs_cannot_be_started() {
    let (mut daemon, run_id) = created_daemon();
    let index = daemon.authorize_lifecycle(&run_id, LifecycleKind::Stop, &lifecycle(None), now_utc()).expect("stop");
    daemon.set_status(index, RunStatus::Stopped, now_utc());
    let error = daemon.authorize_lifecycle(&run_id, LifecycleKind::Start, &lifecycle(None), now_utc()).expect_err("stopped");
    assert_eq!(error.status, 409);
    assert_eq!(code(&error), "invalid_run_state");
    assert_eq!(error.message, "stopped or failed runs cannot be started");
}

#[test]
fn ticks_move_the_head_and_failures_fail_the_run() {
    let (mut daemon, run_id) = created_daemon();
    let index = daemon.authorize_lifecycle(&run_id, LifecycleKind::Start, &lifecycle(None), now_utc()).expect("start");
    daemon.finish_tick(index, Some(StateNodeId { value: 5 }), now_utc());
    let inspected = daemon.inspect_run(&run_id, 3, now_utc()).expect("inspect");
    assert_eq!(inspected.status, RunStatus::Running);
    assert_eq!(inspected.ticks, 1);
    assert_eq!(inspected.adapter_executions, 3);
    assert_eq!(daemon.state_head(&run_id, now_utc()).expect("head"), StateNodeId { value: 5 });
    daemon.finish_tick(index, None, now_utc());
    assert_eq!(daemon.runs()[index].status, RunStatus::Failed);
    assert_eq!(daemon.runs()[index].tick_count, 1);
}

#[test]
fn unknown_runs_and_missing_heads_are_reported() {
    let (daemon, run_id) = created_daemon();
    let error = daemon.inspect_run(&RunId::from_u128(12345), 0, now_utc()).expect_err("unknown");
    assert_eq!(error.status, 404);
    assert_eq!(code(&error), "invalid_run");
    let error = daemon.state_head(&run_id, now_utc()).expect_err("no head");
    assert_eq!(error.status, 404);
    assert_eq!(code(&error), "state_head_not_found");
    let details = invalid_run(&RunId::from_u128(255)).details;
    assert!(matches!(details.get(&"run_id".to_string()), Some(Json::Str(t)) if *t == format!("{}", uuid(255u128))));
}

#[test]
fn percepts_must_be_present_and_allowed() {
    let (daemon, run_id) = created_daemon();
    let attr = attribution();
    let error = daemon.authorize_percept(&run_id, None, None, Some(&attr), now_utc()).expect_err("malformed");
    assert_eq!(error.status, 400);
    assert_eq!(code(&error), "malformed_percept");
    let disallowed = local_percept("splendor.percept.disallowed.v1", Json::Null);
    let error = daemon.authorize_percept(&run_id, Some(&disallowed), None, Some(&attr), now_utc()).expect_err("disallowed");
    assert_eq!(error.status, 403);
    assert_eq!(code(&error), "disallowed_percept");
    let allowed = local_percept("splendor.percept.test.v1", Json::Null);
    assert!(daemon.authorize_percept(&run_id, Some(&allowed), None, Some(&attr), now_utc()).is_ok());
    match percepts_appended(&allowed) {
        TraceEventKind::PerceptsAppended { count, schemas } => {
            assert_eq!(count, 1);
            assert_eq!(schemas, vec!["splendor.percept.test.v1".to_string()]);
        }
        _ => panic!("percepts appended expected"),
    }
}

#[test]
fn traces_need_a_redaction_policy() {
    let (daemon, run_id) = created_daemon();
    let error = daemon.authorize_traces(&run_id, None, now_utc()).expect_err("redaction");
    assert_eq!(error.status, 403);
    assert_eq!(code(&error), "missing_trace_redaction_policy");
    assert!(daemon.authorize_traces(&run_id, Some("none".to_string()), now_utc()).is_ok());
    assert!(daemon.authorize_replay(&run_id, &ReplayRequest { credential: None }, now_utc()).is_ok());
}

fn page_sequences(start: Option<u64>, end: Option<u64>) -> Vec<u64> {
    let run_id = RunId::from_u128(9);
    let records: Vec<TraceRecord> = (0..5).map(|s| record(run_id, s, TraceEventKind::RunStarted)).collect();
    let query = TraceQuery { start, end, redaction_policy: Some("none".to_string()) };
    let page = trace_page(run_id, &query, records);
    assert_eq!(page.run_id, run_id);
    page.records.iter().map(|r| r.sequence).collect()
}

#[test]
fn trace_pages_select_a_half_open_range() {
    assert_eq!(page_sequences(Some(0), Some(2)), vec![0, 1]);
    assert_eq!(page_sequences(Some(3), Some(10)), vec![3, 4]);
    assert_eq!(page_sequences(Some(2), Some(2)), Vec::<u64>::new());
    assert_eq!(page_sequences(Some(1), None), vec![0, 1, 2, 3, 4]);
    assert_eq!(page_sequences(None, None), vec![0, 1, 2, 3, 4]);
}

#[test]
fn completed_ticks_answer_with_the_running_status() {
    let (mut daemon, run_id) = created_daemon();
    let index = daemon.authorize_lifecycle(&run_id, LifecycleKind::Start, &lifecycle(None), now_utc()).expect("start");
    let outcome = ActionOutcome {
        action_id: ActionId::from_u128(1),
        status: ActionStatus::Executed,
        verification: VerificationResult { allowed: true, reasons: Vec::new(), artifacts: Json::Null },
        post_verification: None,
        output: None,
        error: None,
        completed_at: now_utc(),
    };
    let response = daemon.complete_tick(index, 4, StateNodeId { value: 77 }, vec![outcome], now_utc());
    assert_eq!(response.run_id, run_id);
    assert_eq!(response.status, RunStatus::Running);
    assert_eq!(response.tick_id, 4);
    assert_eq!(response.state_node_id, StateNodeId { value: 77 });
    assert_eq!(response.action_outcomes.len(), 1);
    assert_eq!(daemon.state_head(&run_id, now_utc()).expect("head"), StateNodeId { value: 77 });
    assert_eq!(daemon.runs()[index].tick_count, 1);
}

#[test]
fn error_bodies_keep_code_message_and_details() {
    let body = ApiError::new(409, "invalid_run_state", "run must be paused before resume")
        .details(Json::Str("x".to_string()))
        .into_body();
    assert_eq!(body.code, "invalid_run_state");
    assert_eq!(body.message, "run must be paused before resume");
    assert!(matches!(body.details, Json::Str(ref t) if t == "x"));
}

fn submit(run_id: RunId, tenant_id: TenantId, causal: Option<TraceEventId>) -> SubmitActionRequest {
    SubmitActionRequest {
        run_id,
        tenant_id,
        agent_id: agent(),
        credential: None,
        audit_attribution: Some(attribution()),
        causal_trace_id: causal,
        action: action("allowed_action"),
        adapter: Some("daemon.local".to_string()),
        quota_usage: None,
        satisfied_preconditions: Vec::new(),
    }
}

#[test]
fn actions_must_match_scope_and_link_a_trace() {
    let (daemon, run_id) = created_daemon();
    let error = daemon.authorize_action(&submit(run_id, TenantId::from_u128(1), None), now_utc()).expect_err("scope");
    assert_eq!(error.status, 403);
    assert_eq!(code(&error), "wrong_scope");
    let error = daemon.authorize_action(&submit(run_id, tenant(), None), now_utc()).expect_err("trace link");
    assert_eq!(code(&error), "action_missing_trace_link");
    let linked = Some(TraceEventId::from_run_sequence(&run_id, 0));
    assert!(daemon.authorize_action(&submit(run_id, tenant(), linked), now_utc()).is_ok());

    let request = action_request(submit(run_id, tenant(), linked), ActionId::from_u128(8), now_utc());
    assert_eq!(request.quota_usage.actions, 1);
    assert_eq!(request.run_id, run_id);
    assert_eq!(request.action.name, "allowed_action");
}

#[test]
fn action_events_follow_the_outcome() {
    let outcome = ActionOutcome {
        action_id: ActionId::from_u128(8),
        status: ActionStatus::Failed,
        verification: VerificationResult::allow(),
        post_verification: Some(VerificationResult::deny("postcondition_failed")),
        output: None,
        error: None,
        completed_at: now_utc(),
    };
    let events = action_events(&"allowed_action".to_string(), &outcome, None);
    assert_eq!(events.len(), 4);
    assert!(matches!(&events[0], TraceEventKind::ActionVerificationStarted { action } if action == "allowed_action"));
    assert!(matches!(&events[1], TraceEventKind::ActionVerificationCompleted { result, .. } if result.allowed));
    match &events[2] {
        TraceEventKind::ActionFailed { error, result, .. } => {
            assert_eq!(error, "action_failed");
            assert_eq!(result.reasons, vec!["postcondition_failed".to_string()]);
        }
        _ => panic!("failure expected"),
    }
    match &events[3] {
        TraceEventKind::OutcomeRecorded { outcome } => {
            assert!(matches!(outcome.get(&"source".to_string()), Some(Json::Str(t)) if t == "daemon.action"));
            assert!(matches!(outcome.get(&"causal_trace_id".to_string()), Some(Json::Null)));
        }
        _ => panic!("outcome expected"),
    }
}

#[test]
fn replay_counts_action_events() {
    let run_id = RunId::from_u128(61);
    let records = vec![
        record(run_id, 0, TraceEventKind::RunStarted),
        record(run_id, 1, TraceEventKind::ActionDenied { action: "a".to_string(), result: VerificationResult::deny("x") }),
        record(run_id, 2, TraceEventKind::ActionExecuted { action: "a".to_string(), outcome: Json::Null }),
    ];
    let response = replay_response(&run_id, &records).expect("replay");
    assert_eq!(response.event_count, 3);
    assert_eq!(response.action_event_count, 2);
    assert_eq!(response.mode, "inspect_only");
    assert_eq!(response.replay_id, format!("replay-{}", uuid(61u128)));
    let gap = vec![record(run_id, 0, TraceEventKind::RunStarted), record(run_id, 2, TraceEventKind::RunStarted)];
    assert_eq!(replay_response(&run_id, &gap).expect_err("gap").code, "trace_order_invalid");
}

#[test]
fn percept_queue_drains_in_arrival_order() {
    let mut queue = PerceptQueue::new();
    queue.push(local_percept("a", Json::Null)).expect("push a");
    queue.push(local_percept("b", Json::Null)).expect("push b");
    let drained = queue.drain().expect("drain");
    let schemas: Vec<String> = drained.into_iter().map(|p| p.schema).collect();
    assert_eq!(schemas, vec!["a".to_string(), "b".to_string()]);
    assert!(queue.drain().expect("drain again").is_empty());
}

#[test]
fn anonymous_callers_need_development_mode() {
    let daemon = DaemonState::new(DaemonConfig {
        expected_audience: CredentialAudience::Daemon { daemon_id: "daemon_local".to_string() },
        insecure_dev_mode: None,
    });
    let error = daemon.health(now_utc()).expect_err("anonymous");
    assert_eq!(error.status, 401);
    assert_eq!(code(&error), "anonymous_non_dev_call");
    let error = daemon.capabilities(now_utc()).expect_err("anonymous");
    assert_eq!(code(&error), "anonymous_non_dev_call");

    let dev = DaemonState::local_dev();
    let health = dev.health(now_utc()).expect("health");
    assert_eq!(health.status, "ok");
    assert!(health.local_only && health.runtime_available);
    let caps = dev.capabilities(now_utc()).expect("capabilities");
    assert_eq!(caps.daemon_api_version, "0.02-S5");
    assert_eq!(caps.replay_modes, vec!["inspect_only".to_string()]);
    assert_eq!(caps.endpoints.len(), 13);
}

#[test]
fn credentials_are_checked_for_audience_revocation_and_expiry() {
    let expected = CredentialAudience::Daemon { daemon_id: "daemon_local".to_string() };
    let credential = CallerCredential {
        credential_id: "cred".to_string(),
        audience: CredentialAudience::Daemon { daemon_id: "other".to_string() },
        expires_at: in_one_hour(),
        revocation: RevocationStatus::Active,
    };
    let endpoint = DaemonEndpoint::Health;
    let r = validate_daemon_request(&endpoint, Some(&credential), &expected, None, None, None, now_utc());
    assert!(matches!(r, Err(DaemonSecurityError::WrongAudience)));

    let revoked = CallerCredential { audience: expected.clone(), revocation: RevocationStatus::Revoked { reason: "gone".to_string() }, ..credential.clone() };
    let r = validate_daemon_request(&endpoint, Some(&revoked), &expected, None, None, None, now_utc());
    assert!(matches!(r, Err(DaemonSecurityError::CredentialRevoked { .. })));

    let expired = CallerCredential { audience: expected.clone(), expires_at: now_utc().plus(&Span::seconds(-5)), ..credential.clone() };
    let r = validate_daemon_request(&endpoint, Some(&expired), &expected, None, None, None, now_utc());
    assert!(matches!(r, Err(DaemonSecurityError::CredentialExpired)));

    let good = CallerCredential { audience: expected.clone(), ..credential.clone() };
    assert!(validate_daemon_request(&endpoint, Some(&good), &expected, None, None, None, now_utc()).is_ok());

    let mismatched = AuditAttribution { credential_id: Some("someone-else".to_string()), ..attribution() };
    let action_endpoint = DaemonEndpoint::ActionSubmit {
        tenant_id: tenant(),
        run_id: RunId::from_u128(1),
        trace_linked: true,
        gateway_verification: GatewayVerificationState::Required,
    };
    let r = validate_daemon_request(&action_endpoint, Some(&good), &expected, None, Some(&mismatched), None, now_utc());
    assert!(matches!(r, Err(DaemonSecurityError::AttributionMismatch)));
    let r = validate_daemon_request(&action_endpoint, Some(&good), &expected, None, None, None, now_utc());
    assert!(matches!(r, Err(DaemonSecurityError::MissingAuditAttribution)));
}

#[test]
fn lifecycle_events_carry_reasons() {
    assert!(lifecycle_event(LifecycleKind::Start, None).is_none());
    assert!(matches!(lifecycle_event(LifecycleKind::Pause, Some("r".to_string())), Some(TraceEventKind::RunPaused { reason: Some(_) })));
    assert!(matches!(lifecycle_event(LifecycleKind::Stop, None), Some(TraceEventKind::RunStopped { reason: None })));
    assert!(matches!(lifecycle_event(LifecycleKind::Resume, None), Some(TraceEventKind::RunResumed { .. })));
    assert_eq!(RunStatus::Paused.as_str(), "paused");
}

#[test]
fn invalid_policy_bundle_is_rejected_before_run_policy_invocation() {
    let mut daemon = DaemonState::local_dev();
    let mut create = create_request(None);
    create.policy_bundle_required = true;
    let error = daemon.create_run(create, RunId::from_u128(77), now_utc()).expect_err("missing bundle");
    assert_eq!(error.status, 400);
    assert_eq!(code(&error), "missing_policy_bundle");
    assert_eq!(daemon.runs().len(), 0);

    let mut with_bundle = create_request(None);
    with_bundle.policy_bundle_required = true;
    with_bundle.policy_bundle = Some(Json::Object(Vec::new()));
    let created = daemon.create_run(with_bundle, RunId::from_u128(78), now_utc()).expect("created");
    assert_eq!(created.run_id, RunId::from_u128(78));
}
