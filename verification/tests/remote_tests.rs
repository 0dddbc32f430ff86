use splendor::clock::Timestamp;
use splendor::ids::{AgentId, MessageId, RunId, TenantId};
use splendor::json::Json;
use splendor::message::{Message, MessageDeliveryStatus, MessageEnvelope};
use splendor::message_router::LocalMessageRouter;
use splendor::remote::{
    send_remote_message, InMemoryRemoteMessageTransport, InMemoryRemoteTransportFault, RemoteMessageEnvelope,
    RemoteMessageReceiver, RemoteMessageRetryPolicy, RemoteMessageTransportError, RemoteMessageValidationError,
};
use splendor::state::{RevocationStatus, WorkOrderAuthorization, WorkOrderSignature};
use splendor::trace::{KernelRuntime, KernelRuntimeConfig, TraceError, TraceEvent, TraceEventKind, TraceSink};
use std::cell::RefCell;
use std::rc::Rc;

#[derive(Clone, Default)]
struct SharedSink {
    events: Rc<RefCell<Vec<TraceEvent>>>,
}

impl TraceSink for SharedSink {
    fn record(&mut self, event: &TraceEvent) -> Result<(), TraceError> {
        self.events.borrow_mut().push(event.clone());
        Ok(())
    }
}

const RUN: u128 = 0x501;
const TENANT: u128 = 0x502;
const SOURCE: u128 = 0x503;
const TARGET: u128 = 0x504;

fn runtime(run: u128) -> (KernelRuntime<SharedSink>, Rc<RefCell<Vec<TraceEvent>>>) {
    let sink = SharedSink::default();
    let events = Rc::clone(&sink.events);
    (KernelRuntime::new(KernelRuntimeConfig { trace_sink: sink, run_id: RunId::from_u128(run), initial_sequence: 0 }), events)
}

fn now() -> Timestamp {
    Timestamp::from_unix_nanos(1_000 * 1_000_000_000)
}

fn remote_envelope(id: u128) -> RemoteMessageEnvelope {
    let message = Message {
        message_id: MessageId::from_u128(id),
        source_agent_id: AgentId::from_u128(SOURCE),
        target_agent_id: AgentId::from_u128(TARGET),
        run_id: RunId::from_u128(RUN),
        schema: "splendor.task_request.v1".to_string(),
        payload: Json::Null,
        causal_trace_id: None,
        requires_response: true,
        created_at: now(),
    };
    RemoteMessageEnvelope {
        tenant_id: TenantId::from_u128(TENANT),
        source_instance_id: "instance_source".to_string(),
        target_instance_id: "instance_target".to_string(),
        work_order: WorkOrderAuthorization {
            work_order_id: 0x77,
            tenant_id: TenantId::from_u128(TENANT),
            agent_id: AgentId::from_u128(TARGET),
            run_id: Some(RunId::from_u128(RUN)),
            allowed_scopes: Vec::new(),
            expires_at: Timestamp { unix_nanos: i128::MAX },
            signature: Some(WorkOrderSignature { key_id: "k".to_string(), signature: "s".to_string() }),
            revocation: RevocationStatus::Active,
        },
        message_envelope: MessageEnvelope::new(message).expect("valid message"),
        retry_policy: RemoteMessageRetryPolicy::Never,
        attempt: 1,
        created_at: now(),
        expires_at: Some(Timestamp::from_unix_nanos(1_300 * 1_000_000_000)),
    }
}

fn target_router() -> LocalMessageRouter {
    let mut router = LocalMessageRouter::new();
    router.register_agent(AgentId::from_u128(TARGET)).expect("registered");
    router
}

#[test]
fn remote_message_is_delivered_into_target_inbox_once() {
    let (mut source, source_events) = runtime(RUN);
    let (target, target_events) = runtime(RUN);
    let receiver = RemoteMessageReceiver::new("instance_target".to_string(), target_router());
    let mut transport = InMemoryRemoteMessageTransport::new(receiver, target);
    let delivered = send_remote_message(&mut transport, &mut source, remote_envelope(9), now()).expect("delivered");
    assert_eq!(delivered.delivery_status, MessageDeliveryStatus::Delivered);
    assert!(matches!(source_events.borrow()[0].kind, TraceEventKind::RemoteMessageSent { .. }));
    let kinds: Vec<TraceEventKind> = target_events.borrow().iter().map(|e| e.kind.clone()).collect();
    assert!(matches!(kinds[0], TraceEventKind::RemoteMessageAccepted { .. }));
    assert!(matches!(kinds[1], TraceEventKind::RemoteMessageDelivered { .. }));
    assert!(matches!(kinds[2], TraceEventKind::MessageQueued { .. }));
    assert!(matches!(kinds[3], TraceEventKind::MessageDelivered { .. }));

    let (mut receiver, mut target) = transport.into_parts();
    let inbox = receiver.router().inbox(&AgentId::from_u128(TARGET), &RunId::from_u128(RUN)).expect("inbox");
    assert_eq!(inbox.len(), 1);

    let duplicate = receiver.accept_at(&mut target, remote_envelope(9), now());
    assert!(matches!(duplicate, Err(RemoteMessageTransportError::Duplicate { message_id }) if message_id == MessageId::from_u128(9)));
    let inbox = receiver.router().inbox(&AgentId::from_u128(TARGET), &RunId::from_u128(RUN)).expect("inbox");
    assert_eq!(inbox.len(), 1);
    assert!(matches!(target_events.borrow().last().unwrap().kind, TraceEventKind::RemoteMessageDuplicate { .. }));
}

#[test]
fn remote_message_without_authority_is_refused_before_delivery() {
    let (mut source, source_events) = runtime(RUN);
    let (target, _) = runtime(RUN);
    let receiver = RemoteMessageReceiver::new("instance_target".to_string(), target_router());
    let mut transport = InMemoryRemoteMessageTransport::new(receiver, target);

    let mut unsigned = remote_envelope(10);
    unsigned.work_order.signature = None;
    let error = send_remote_message(&mut transport, &mut source, unsigned, now()).unwrap_err();
    assert!(matches!(error, RemoteMessageTransportError::InvalidEnvelope(RemoteMessageValidationError::UnsignedWorkOrder)));
    assert_eq!(error.message(), "remote message envelope validation failed: work order must be signed");
    assert!(matches!(source_events.borrow().last().unwrap().kind, TraceEventKind::RemoteMessageRejected { .. }));

    let mut mismatched = remote_envelope(11);
    mismatched.work_order.run_id = Some(RunId::from_u128(0x999));
    let error = send_remote_message(&mut transport, &mut source, mismatched, now()).unwrap_err();
    assert!(matches!(error, RemoteMessageTransportError::InvalidEnvelope(RemoteMessageValidationError::WorkOrderRunMismatch)));

    let (receiver, _) = transport.into_parts();
    let inbox = receiver.router().inbox(&AgentId::from_u128(TARGET), &RunId::from_u128(RUN)).expect("inbox");
    assert_eq!(inbox.len(), 0);
}

#[test]
fn remote_message_to_another_instance_is_refused() {
    let (mut target, _) = runtime(RUN);
    let mut receiver = RemoteMessageReceiver::new("instance_other".to_string(), target_router());
    let error = receiver.accept_at(&mut target, remote_envelope(12), now()).unwrap_err();
    assert_eq!(error.message(), "remote message target instance instance_target does not match receiver instance_other");
}

#[test]
fn idempotent_message_is_retried_after_timeout() {
    let (mut source, source_events) = runtime(RUN);
    let (target, _) = runtime(RUN);
    let receiver = RemoteMessageReceiver::new("instance_target".to_string(), target_router());
    let mut transport = InMemoryRemoteMessageTransport::with_faults(receiver, target, vec![InMemoryRemoteTransportFault::Timeout {
        reason: "deterministic_timeout_before_retry".to_string(),
    }]);
    let mut retryable = remote_envelope(13);
    retryable.retry_policy = RemoteMessageRetryPolicy::Idempotent { max_attempts: 2, idempotency_key: "remote-k".to_string() };
    let delivered = send_remote_message(&mut transport, &mut source, retryable, now()).expect("delivered on retry");
    assert_eq!(delivered.delivery_status, MessageDeliveryStatus::Delivered);
    let kinds: Vec<TraceEventKind> = source_events.borrow().iter().map(|e| e.kind.clone()).collect();
    assert!(matches!(&kinds[1], TraceEventKind::RemoteMessageTimedOut { reason, .. } if reason == "deterministic_timeout_before_retry"));
    assert!(matches!(&kinds[2], TraceEventKind::RemoteMessageSent { remote_message } if remote_message.attempt == 2));
}

#[test]
fn message_without_retry_policy_is_not_retried() {
    let (mut source, _) = runtime(RUN);
    let (target, _) = runtime(RUN);
    let receiver = RemoteMessageReceiver::new("instance_target".to_string(), target_router());
    let mut transport = InMemoryRemoteMessageTransport::with_faults(receiver, target, vec![
        InMemoryRemoteTransportFault::Timeout { reason: "first".to_string() },
    ]);
    let error = send_remote_message(&mut transport, &mut source, remote_envelope(14), now()).unwrap_err();
    assert!(matches!(error, RemoteMessageTransportError::Timeout { ref reason } if reason == "first"));
    assert_eq!(error.message(), "remote message transport timed out: first");

    let (receiver, target) = transport.into_parts();
    let mut transport = InMemoryRemoteMessageTransport::with_faults(receiver, target, vec![
        InMemoryRemoteTransportFault::Failure { reason: "link_down".to_string() },
    ]);
    let mut limited = remote_envelope(15);
    limited.retry_policy = RemoteMessageRetryPolicy::Idempotent { max_attempts: 1, idempotency_key: "k".to_string() };
    let error = send_remote_message(&mut transport, &mut source, limited, now()).unwrap_err();
    assert!(matches!(error, RemoteMessageTransportError::TransportFailed { .. }));
}

#[test]
fn expired_remote_envelope_is_refused() {
    let (mut target, _) = runtime(RUN);
    let mut receiver = RemoteMessageReceiver::new("instance_target".to_string(), target_router());
    let late = Timestamp::from_unix_nanos(2_000 * 1_000_000_000);
    let error = receiver.accept_at(&mut target, remote_envelope(16), late).unwrap_err();
    assert!(matches!(error, RemoteMessageTransportError::InvalidEnvelope(RemoteMessageValidationError::Expired)));
}
