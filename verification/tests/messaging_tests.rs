use splendor::clock::{Span, Timestamp};
use splendor::delegation::{
    replay_local_delegations, DelegatedAuthority, LocalDelegationError, LocalDelegationManager,
    LocalDelegationRequest, LocalRunStatus, TaskFailure, TASK_REQUEST_SCHEMA,
};
use splendor::ids::{AgentId, MessageId, RunId, TenantId};
use splendor::json::Json;
use splendor::message::{Message, MessageDeliveryStatus, MessageEnvelope, MessageValidationError};
use splendor::message_router::{expiration_reason, LocalMessageRouter, MessageRouterConfig, MessageRouterError};
use splendor::tenancy::{AgentContext, AgentRuntimeConfig};
use splendor::trace::{KernelRuntime, KernelRuntimeConfig, TraceError, TraceEvent, TraceEventKind, TraceSink};
use std::cell::RefCell;
use std::rc::Rc;

#[derive(Clone, Default)]
struct SharedSink {
    events: Rc<RefCell<Vec<TraceEvent>>>,
}

impl TraceSink for SharedSink {
    fn record(&mut self, event: &TraceEvent) -> Result<(), TraceError> {
        self.events.borrow_mut().push(event.clone());
        Ok(())
    }
}

fn runtime(run: u128) -> (KernelRuntime<SharedSink>, Rc<RefCell<Vec<TraceEvent>>>) {
    let sink = SharedSink::default();
    let events = Rc::clone(&sink.events);
    (KernelRuntime::new(KernelRuntimeConfig { trace_sink: sink, run_id: RunId::from_u128(run), initial_sequence: 0 }), events)
}

fn at(seconds: i64) -> Timestamp {
    Timestamp::from_unix_nanos(seconds as i128 * 1_000_000_000)
}

fn message(id: u128, source: u128, target: u128, run: u128, created: i64) -> Message {
    Message {
        message_id: MessageId::from_u128(id),
        source_agent_id: AgentId::from_u128(source),
        target_agent_id: AgentId::from_u128(target),
        run_id: RunId::from_u128(run),
        schema: "splendor.test.v1".to_string(),
        payload: Json::Null,
        causal_trace_id: None,
        requires_response: false,
        created_at: at(created),
    }
}

fn envelope(id: u128, source: u128, target: u128, run: u128, created: i64) -> MessageEnvelope {
    MessageEnvelope::new(message(id, source, target, run, created)).expect("valid message")
}

#[test]
fn message_validation_reports_first_failure() {
    let mut m = message(0, 1, 2, 3, 0);
    assert_eq!(m.validate(), Err(MessageValidationError::NilMessageId));
    m.message_id = MessageId::from_u128(9);
    m.schema = String::new();
    assert_eq!(m.validate(), Err(MessageValidationError::EmptySchema));
    assert_eq!(MessageValidationError::EmptySchema.message(), "schema must not be empty");
    assert!(MessageEnvelope::new(message(1, 0, 2, 3, 0)).is_err());
    let env = envelope(1, 2, 3, 4, 0);
    assert_eq!(env.delivery_status, MessageDeliveryStatus::Created);
}

#[test]
fn routed_messages_are_consumed_once_in_order() {
    let mut router = LocalMessageRouter::new();
    router.register_agent(AgentId::from_u128(1)).expect("register source");
    router.register_agent(AgentId::from_u128(2)).expect("register target");
    let (mut recorder, events) = runtime(7);
    let first = router.send_at(&mut recorder, envelope(10, 1, 2, 7, 100), at(100)).expect("send first");
    assert_eq!(first.delivery_status, MessageDeliveryStatus::Delivered);
    router.send_at(&mut recorder, envelope(11, 1, 2, 7, 100), at(100)).expect("send second");
    let inbox = router.inbox(&AgentId::from_u128(2), &RunId::from_u128(7)).expect("inbox");
    assert_eq!(inbox.len(), 2);
    let next = router.consume_next_at(&mut recorder, &AgentId::from_u128(2), &RunId::from_u128(7), at(101)).expect("consume");
    let consumed = next.expect("a message");
    assert_eq!(consumed.message.message_id, MessageId::from_u128(10));
    assert_eq!(consumed.delivery_status, MessageDeliveryStatus::Consumed);
    let again = router.consume_at(&mut recorder, &AgentId::from_u128(2), &RunId::from_u128(7), &MessageId::from_u128(10), at(101));
    assert!(matches!(again, Err(MessageRouterError::MessageNotVisible { .. })));
    let kinds: Vec<String> = events.borrow().iter().map(|e| format!("{:?}", e.kind)).collect();
    assert!(kinds[0].starts_with("MessageQueued"));
    assert!(kinds[1].starts_with("MessageDelivered"));
}

#[test]
fn unknown_agents_and_run_mismatch_are_refused() {
    let mut router = LocalMessageRouter::new();
    router.register_agent(AgentId::from_u128(1)).expect("register source");
    let (mut recorder, events) = runtime(7);
    let r = router.send_at(&mut recorder, envelope(10, 1, 2, 7, 0), at(0));
    assert!(matches!(r, Err(MessageRouterError::UnknownTargetAgent(a)) if a == AgentId::from_u128(2)));
    assert!(format!("{:?}", events.borrow().last().expect("rejection").kind).starts_with("MessageRejected"));
    let r = router.send_at(&mut recorder, envelope(11, 1, 2, 8, 0), at(0));
    assert!(matches!(r, Err(MessageRouterError::TraceRunMismatch { .. })));
}

#[test]
fn full_inboxes_refuse_without_changing_mailboxes() {
    let mut router = LocalMessageRouter::with_config(MessageRouterConfig { max_inbox_messages: 1, ..MessageRouterConfig::standard() });
    router.register_agent(AgentId::from_u128(1)).expect("register source");
    router.register_agent(AgentId::from_u128(2)).expect("register target");
    let (mut recorder, _events) = runtime(7);
    router.send_at(&mut recorder, envelope(10, 1, 2, 7, 0), at(0)).expect("first fits");
    let r = router.send_at(&mut recorder, envelope(11, 1, 2, 7, 0), at(0));
    assert!(matches!(r, Err(MessageRouterError::InboxFull { limit: 1, .. })));
    assert_eq!(router.inbox(&AgentId::from_u128(2), &RunId::from_u128(7)).expect("inbox").len(), 1);
}

#[test]
fn old_messages_expire() {
    let config = MessageRouterConfig { max_message_age: Some(Span::seconds(60)), ..MessageRouterConfig::standard() };
    assert!(expiration_reason(&config, &at(0), &at(59)).is_none());
    let reason = expiration_reason(&config, &at(0), &at(60)).expect("expired");
    assert!(reason.contains("exceeded max_message_age"));
    let mut router = LocalMessageRouter::with_config(config);
    router.register_agent(AgentId::from_u128(1)).expect("register source");
    router.register_agent(AgentId::from_u128(2)).expect("register target");
    let (mut recorder, _events) = runtime(7);
    let r = router.send_at(&mut recorder, envelope(10, 1, 2, 7, 0), at(100));
    assert!(matches!(r, Err(MessageRouterError::Expired { .. })));
}

fn authority(actions: &[&str]) -> DelegatedAuthority {
    DelegatedAuthority {
        allowed_actions: actions.iter().map(|s| s.to_string()).collect(),
        allowed_adapters: Vec::new(),
        allowed_permissions: Vec::new(),
    }
}

fn agent(id: u128, tenant: u128) -> AgentContext {
    AgentContext::new(AgentId::from_u128(id), TenantId::from_u128(tenant), AgentRuntimeConfig::empty())
}

fn manager() -> LocalDelegationManager {
    let mut m = LocalDelegationManager::new();
    m.register_agent(agent(1, 50), authority(&["read", "write"])).expect("parent agent");
    m.register_agent(agent(2, 50), authority(&["read"])).expect("child agent");
    m.register_agent(agent(3, 51), authority(&["read"])).expect("foreign agent");
    m.register_root_run(RunId::from_u128(100), AgentId::from_u128(1)).expect("root run");
    m
}

fn request(child_run: u128, target: u128, actions: &[&str]) -> LocalDelegationRequest {
    LocalDelegationRequest::new(
        RunId::from_u128(100),
        RunId::from_u128(child_run),
        AgentId::from_u128(1),
        AgentId::from_u128(target),
        "summarize".to_string(),
        authority(actions),
        None,
    )
}

#[test]
fn delegated_child_runs_finish_once() {
    let mut m = manager();
    let (mut parent, parent_events) = runtime(100);
    let (mut child, _child_events) = runtime(200);
    let created = m.create_child_run(&mut parent, &mut child, request(200, 2, &["read"]), MessageId::from_u128(900)).expect("created");
    assert_eq!(created.run.status, LocalRunStatus::Running);
    assert_eq!(created.request_message.message.schema, TASK_REQUEST_SCHEMA);
    assert_eq!(m.run(&RunId::from_u128(100)).expect("parent").child_run_ids, vec![RunId::from_u128(200)]);

    let done = m
        .complete_child_run(&mut parent, &mut child, &RunId::from_u128(200), Json::Str("ok".to_string()), MessageId::from_u128(901))
        .expect("completed");
    assert_eq!(done.response.child_run_id, RunId::from_u128(200));
    assert_eq!(m.run(&RunId::from_u128(200)).expect("child").status, LocalRunStatus::Completed);
    let again = m.fail_child_run(
        &mut parent,
        &mut child,
        &RunId::from_u128(200),
        TaskFailure { code: "late".to_string(), message: "late".to_string(), retryable: false, trace_id: None },
        MessageId::from_u128(902),
    );
    assert!(matches!(again, Err(LocalDelegationError::ChildRunAlreadyFinished { .. })));

    let replay = replay_local_delegations(&parent_events.borrow());
    assert_eq!(replay.delegations.len(), 1);
    assert_eq!(replay.delegations[0].child_run_id, RunId::from_u128(200));
}

#[test]
fn delegation_refuses_excess_authority_tenant_mismatch_and_cancelled_parents() {
    let mut m = manager();
    let (mut parent, _pe) = runtime(100);
    let (mut child, _ce) = runtime(201);
    let r = m.create_child_run(&mut parent, &mut child, request(201, 2, &["write"]), MessageId::from_u128(903));
    assert!(matches!(r, Err(LocalDelegationError::DelegatedAuthorityDenied { .. })));
    let r = m.create_child_run(&mut parent, &mut child, request(201, 3, &["read"]), MessageId::from_u128(904));
    assert!(matches!(r, Err(LocalDelegationError::TenantMismatch)));
    m.cancel_parent_run(&mut parent, &RunId::from_u128(100), "operator".to_string()).expect("cancelled");
    let r = m.create_child_run(&mut parent, &mut child, request(201, 2, &["read"]), MessageId::from_u128(905));
    assert!(matches!(r, Err(LocalDelegationError::ParentCancelled(_))));
    assert!(matches!(m.run(&RunId::from_u128(201)), Err(LocalDelegationError::UnknownChildRun(_))));
}

#[test]
fn authority_subsets() {
    assert!(authority(&["read"]).is_subset_of(&authority(&["read", "write"])));
    assert!(!authority(&["delete"]).is_subset_of(&authority(&["read"])));
    assert!(DelegatedAuthority::empty().is_subset_of(&authority(&[])));
    assert!(LocalRunStatus::Completed.is_terminal());
    assert!(!LocalRunStatus::Running.is_terminal());
}

#[test]
fn recorded_message_events_name_the_kernel_events() {
    let (mut recorder, events) = runtime(9);
    let e = recorder.record_event(TraceEventKind::RunStarted).expect("recorded");
    assert_eq!(e.sequence, 0);
    assert_eq!(events.borrow().len(), 1);
    assert_eq!(recorder.next_sequence(), 1);
}

#[test]
fn expiration_reason_writes_durations_as_the_time_crate_does() {
    let config = MessageRouterConfig { max_message_age: Some(Span::seconds(60)), ..MessageRouterConfig::standard() };
    let created = Timestamp::from_unix_nanos(0);
    let now = Timestamp::from_unix_nanos(61_000_000_250);
    let reason = expiration_reason(&config, &created, &now).expect("expired");
    let expected = format!(
        "message age {:?} exceeded max_message_age {:?}",
        time::Duration::nanoseconds_i128(61_000_000_250),
        time::Duration::nanoseconds_i128(60_000_000_000)
    );
    assert_eq!(reason, expected);
    assert_eq!(reason, "message age SignedDuration { seconds: 61, nanoseconds: 250 } exceeded max_message_age SignedDuration { seconds: 60, nanoseconds: 0 }");
}

#[test]
fn consumed_message_carries_the_sent_payload() {
    let mut router = LocalMessageRouter::new();
    router.register_agent(AgentId::from_u128(1)).expect("register source");
    router.register_agent(AgentId::from_u128(2)).expect("register target");
    let (mut recorder, _events) = runtime(7);
    let mut sent = message(12, 1, 2, 7, 100);
    sent.payload = Json::Str("hello".to_string());
    sent.requires_response = true;
    router.send_at(&mut recorder, MessageEnvelope::new(sent).expect("valid"), at(100)).expect("send");
    let consumed = router
        .consume_at(&mut recorder, &AgentId::from_u128(2), &RunId::from_u128(7), &MessageId::from_u128(12), at(101))
        .expect("consume");
    assert!(matches!(&consumed.message.payload, Json::Str(t) if t == "hello"));
    assert!(consumed.message.requires_response);
    assert_eq!(consumed.message.schema, "splendor.test.v1");
    assert_eq!(consumed.delivery_status, MessageDeliveryStatus::Consumed);
}

#[test]
fn admitted_delegation_with_a_nil_message_id_is_an_invalid_message() {
    let mut m = manager();
    let (mut parent, _parent_events) = runtime(100);
    let (mut child, _child_events) = runtime(200);
    let r = m.create_child_run(&mut parent, &mut child, request(200, 2, &["read"]), MessageId::from_u128(0));
    assert!(matches!(r, Err(LocalDelegationError::Message(MessageValidationError::NilMessageId))));
    assert!(m.run(&RunId::from_u128(200)).is_err());
}
