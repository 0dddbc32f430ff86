use splendor::clock::Span;
use splendor::delegation::LocalDelegationError;
use splendor::gateway::{IdentityField, IdentityValidationError};
use splendor::ids::{AgentId, MessageId, RunId, StateNodeId, TenantId};
use splendor::loop_engine::{LoopError, TickOutcome};
use splendor::message_router::MessageRouterError;
use splendor::scheduler::{SchedulerError, SchedulerStep};
use splendor::state::{StateCommit, StateGraphError, StateReferenceMode, StateStoreError};
use splendor::trace::{TraceError, TraceStoreError};

fn uuid(value: u128) -> String {
    let h = format!("{:032x}", value);
    format!("{}-{}-{}-{}-{}", &h[0..8], &h[8..12], &h[12..16], &h[16..20], &h[20..32])
}


#[test]
fn trace_error_texts_carry_their_details() {
    assert_eq!(
        TraceError::SequenceMismatch { expected: 3, actual: 7 }.message(),
        "trace sequence mismatch: expected 3 but stored 7"
    );
    assert_eq!(TraceError::SequenceOverflow(u64::MAX).message(), format!("trace sequence overflow for value: {}", u64::MAX));
    assert_eq!(TraceError::Serialization("bad".to_string()).message(), "failed to serialize trace event: bad");
    assert_eq!(TraceError::IntegrityLock.message(), "trace integrity lock poisoned");
    assert_eq!(TraceError::Store(TraceStoreError::RunNotFound).message(), "trace store error: trace run not found");
}

#[test]
fn state_graph_error_texts() {
    assert_eq!(
        StateGraphError::InvalidHandoffMode { expected: StateReferenceMode::SnapshotImport, actual: StateReferenceMode::ReadOnlyReference }
            .message(),
        "invalid state handoff mode: expected SnapshotImport, got ReadOnlyReference"
    );
    assert_eq!(
        StateGraphError::StaleStateHead { expected: Some(StateNodeId { value: 1 }), actual: None }.message(),
        format!("state handoff expected receiver head Some(\"{}\") but found None", uuid(1u128))
    );
    assert_eq!(
        StateGraphError::RevokedWorkOrder { reason: "rotated".to_string() }.message(),
        "state handoff work order has been revoked: rotated"
    );
    assert_eq!(
        StateGraphError::Store(StateStoreError::NotFound("snapshot".to_string())).message(),
        "state store error: not found: snapshot"
    );
    assert_eq!(
        StateGraphError::ReadOnlyReferenceMutationDenied { reference_id: "r1".to_string() }.message(),
        "read-only state reference r1 cannot be mutated"
    );
}

#[test]
fn loop_and_scheduler_error_texts_nest() {
    let loop_error = LoopError::Trace(TraceError::IntegrityLock);
    assert_eq!(loop_error.message(), "trace error: trace integrity lock poisoned");
    assert_eq!(
        SchedulerError::Loop(LoopError::Policy("no decision".to_string())).message(),
        "loop engine failed: policy error: no decision"
    );
    assert_eq!(SchedulerError::NoAgents.message(), "no agents registered");
    assert_eq!(
        SchedulerError::MissingTenant(TenantId::from_u128(10)).message(),
        format!("tenant context was not found for tenant {}", uuid(10u128))
    );
    assert_eq!(
        LoopError::StateGraph(StateGraphError::UnsignedWorkOrder).message(),
        "state graph error: state handoff work order is unsigned"
    );
}

#[test]
fn tick_budget_text_shows_both_durations() {
    let text = tick_budget_text(Span::seconds(2), Span::from_nanos(1_500_000_000));
    assert_eq!(text, "tick budget exceeded (1.5s > 2s)");
}

fn tick_budget_text(budget: Span, elapsed: Span) -> String {
    let step = SchedulerStep {
        tick_id: 1,
        agent_id: AgentId::from_u128(1),
        outcome: TickOutcome {
            tick_id: 1,
            action_outcomes: Vec::new(),
            state_commit: StateCommit {
                node_id: StateNodeId { value: 1 },
                tenant_id: None,
                agent_id: None,
                run_id: None,
                trace_event_id: None,
                snapshot_id: None,
            },
            duration_ms: 0,
            needs_intervention: false,
            needs_approval: false,
        },
        elapsed,
    };
    SchedulerError::TickBudgetExceeded { step: Box::new(step), budget, elapsed }.message()
}

#[test]
fn router_and_delegation_error_texts() {
    let router = MessageRouterError::UnknownAgent(AgentId::from_u128(4));
    assert_eq!(router.message(), format!("agent {} is not registered", uuid(4u128)));
    assert_eq!(
        LocalDelegationError::Router(MessageRouterError::StorageUnavailable).message(),
        "message router failed: message router storage is unavailable"
    );
    assert_eq!(
        LocalDelegationError::ParentCancelled(RunId::from_u128(2)).message(),
        format!("parent run {} is cancelled", uuid(2u128))
    );
    assert_eq!(
        IdentityValidationError::Missing(IdentityField::RunId).message(),
        "missing identity field: run_id"
    );
    let expired = MessageRouterError::Expired { message_id: MessageId::from_u128(1), reason: "too old".to_string() };
    assert_eq!(expired.message(), format!("message {} expired: too old", uuid(1u128)));
}

#[test]
fn identifiers_render_hyphenated() {
    assert_eq!(splendor::textual::uuid_string(0x0123456789abcdef0123456789abcdefu128), "01234567-89ab-cdef-0123-456789abcdef");
    assert_eq!(splendor::textual::uuid_string(0), "00000000-0000-0000-0000-000000000000");
    assert_eq!(splendor::textual::uuid_string(255), "00000000-0000-0000-0000-0000000000ff");
}
