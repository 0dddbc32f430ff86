use splendor::action::{Action, SideEffectClass};
use splendor::clock::Timestamp;
use splendor::escalation::{
    escalations_require_intervention, EscalationDecision, EscalationEvaluator, EscalationObservation,
    EscalationPolicy, EscalationRule, EscalationScope, EscalationTrigger,
};
use splendor::gateway::{ActionAdapter, ActionRequest, ActionStatus, AdapterError, AdapterResult, VerifiedActionGateway};
use splendor::ids::{AgentId, RunId, StateNodeId, TenantId};
use splendor::json::Json;
use splendor::loop_engine::{ActionCandidate, LoopEngine, LoopError, Percept, Perceptor, Policy, PolicyDecision, RunTraceContext};
use splendor::quota::QuotaPolicy;
use splendor::scheduler::{remaining_interval, Scheduler, SchedulerConfig, SchedulerError};
use splendor::clock::Span;
use splendor::state::{
    RevocationStatus, WorkOrderAuthorization,
    DataRef, SnapshotId, SnapshotPolicy, StateData, StateGraph, StateMetadata, StateSnapshot, StateStore, StateStoreError,
};
use splendor::tenancy::{AgentContext, AgentRuntimeConfig, TenantContext, TenantPolicy, TenantRegistry};
use splendor::trace::{KernelRuntime, KernelRuntimeConfig, TraceError, TraceEvent, TraceEventKind, TraceSink};
use std::cell::{Cell, RefCell};
use std::collections::HashMap;
use std::rc::Rc;

fn uuid(value: u128) -> String {
    let h = format!("{:032x}", value);
    format!("{}-{}-{}-{}-{}", &h[0..8], &h[8..12], &h[12..16], &h[16..20], &h[20..32])
}


#[derive(Clone, Default)]
struct SharedSink {
    events: Rc<RefCell<Vec<TraceEvent>>>,
}

impl TraceSink for SharedSink {
    fn record(&mut self, event: &TraceEvent) -> Result<(), TraceError> {
        self.events.borrow_mut().push(event.clone());
        Ok(())
    }
}

#[derive(Default)]
struct TestStore {
    next: u128,
    data: HashMap<u128, StateData>,
    nodes: HashMap<u128, DataRef>,
    snapshots: HashMap<u128, StateSnapshot>,
}

impl StateStore for TestStore {
    fn put_state(&mut self, state: StateData) -> Result<DataRef, StateStoreError> {
        self.next += 1;
        self.data.insert(self.next, state);
        Ok(DataRef { value: self.next })
    }

    fn commit_node(&mut self, _parents: Vec<StateNodeId>, data: DataRef, _metadata: StateMetadata) -> Result<StateNodeId, StateStoreError> {
        self.next += 1;
        self.nodes.insert(self.next, data);
        Ok(StateNodeId { value: self.next })
    }

    fn snapshot(&mut self, node_id: &StateNodeId) -> Result<SnapshotId, StateStoreError> {
        let data = self.nodes.get(&node_id.value).ok_or_else(|| StateStoreError::NotFound("node".to_string()))?;
        let state = self.data.get(&data.value).cloned().ok_or_else(|| StateStoreError::NotFound("data".to_string()))?;
        self.next += 1;
        self.snapshots.insert(self.next, StateSnapshot { snapshot_id: SnapshotId { value: self.next }, node_id: *node_id, state });
        Ok(SnapshotId { value: self.next })
    }

    fn load_snapshot(&self, snapshot_id: &SnapshotId) -> Result<StateSnapshot, StateStoreError> {
        self.snapshots
            .get(&snapshot_id.value)
            .map(|s| StateSnapshot { snapshot_id: s.snapshot_id, node_id: s.node_id, state: s.state.clone() })
            .ok_or_else(|| StateStoreError::NotFound("snapshot".to_string()))
    }

    fn import_snapshot(&mut self, snapshot: &StateSnapshot, metadata: StateMetadata) -> Result<(StateNodeId, SnapshotId), StateStoreError> {
        let data = self.put_state(snapshot.state.clone())?;
        let node = self.commit_node(Vec::new(), data, metadata)?;
        let snap = self.snapshot(&node)?;
        Ok((node, snap))
    }
}

struct ProposingPolicy {
    names: Vec<String>,
}

impl Policy for ProposingPolicy {
    fn name(&self) -> String {
        "test.policy".to_string()
    }

    fn decide(&self, _state: &StateData, _percepts: &[Percept]) -> Result<PolicyDecision, LoopError> {
        let actions = self
            .names
            .iter()
            .map(|n| {
                ActionCandidate::new(Action {
                    name: n.clone(),
                    params: Json::Null,
                    side_effect_class: SideEffectClass::ReadOnly,
                    required_permissions: Vec::new(),
                    preconditions: Vec::new(),
                    postconditions: Vec::new(),
                })
                .with_adapter("adapter".to_string())
            })
            .collect();
        Ok(PolicyDecision::new(actions, StateData { bytes: b"next".to_vec(), content_type: None }, Some("tick".to_string())))
    }
}

struct NoPercepts;

impl Perceptor for NoPercepts {
    fn collect(&self, _agent: &AgentContext) -> Result<Vec<Percept>, LoopError> {
        Ok(Vec::new())
    }
}

struct CountingAdapter {
    calls: Rc<Cell<u32>>,
}

impl ActionAdapter for CountingAdapter {
    fn execute(&self, _action: &ActionRequest) -> Result<AdapterResult, AdapterError> {
        self.calls.set(self.calls.get() + 1);
        Ok(AdapterResult { output: Json::Bool(true), satisfied_postconditions: Vec::new() })
    }
}

type TestEngine = LoopEngine<SharedSink, VerifiedActionGateway<TenantRegistry, CountingAdapter>, TestStore>;

fn registry(tenant: TenantId, actions: &[&str]) -> TenantRegistry {
    let mut r = TenantRegistry::new();
    r.insert(TenantContext::new(
        tenant,
        TenantPolicy {
            allowed_actions: actions.iter().map(|s| s.to_string()).collect(),
            allowed_adapters: vec!["adapter".to_string()],
            allowed_permissions: Vec::new(),
        },
        QuotaPolicy::unlimited(),
    ));
    r
}

fn engine(agent: u128, run: u128, proposals: &[&str], allowed: &[&str]) -> (TestEngine, Rc<RefCell<Vec<TraceEvent>>>, Rc<Cell<u32>>) {
    let tenant = TenantId::from_u128(1);
    let calls = Rc::new(Cell::new(0));
    let mut gateway = VerifiedActionGateway::new(registry(tenant, allowed));
    for name in proposals {
        gateway.register_adapter(name.to_string(), "adapter".to_string(), CountingAdapter { calls: Rc::clone(&calls) });
    }
    let sink = SharedSink::default();
    let events = Rc::clone(&sink.events);
    let runtime = KernelRuntime::new(KernelRuntimeConfig { trace_sink: sink, run_id: RunId::from_u128(run), initial_sequence: 0 });
    let graph = StateGraph::new(TestStore::default(), SnapshotPolicy { interval: Some(2), important_labels: Vec::new() });
    let mut e = LoopEngine::with_runtime(
        AgentContext::new(AgentId::from_u128(agent), tenant, AgentRuntimeConfig::empty()),
        graph,
        StateData { bytes: Vec::new(), content_type: None },
        Box::new(ProposingPolicy { names: proposals.iter().map(|s| s.to_string()).collect() }),
        gateway,
        runtime,
    );
    e.add_perceptor(Box::new(NoPercepts));
    (e, events, calls)
}

#[test]
fn a_tick_is_traced_from_start_to_commit() {
    let (mut e, events, calls) = engine(10, 20, &["allowed", "forbidden"], &["allowed"]);
    let outcome = e.tick(1).expect("tick");
    assert_eq!(outcome.tick_id, 1);
    assert_eq!(outcome.action_outcomes.len(), 2);
    assert!(matches!(outcome.action_outcomes[0].status, ActionStatus::Executed));
    assert!(matches!(outcome.action_outcomes[1].status, ActionStatus::Denied));
    assert_eq!(calls.get(), 1);
    let kinds = events.borrow();
    assert!(matches!(kinds.first().map(|e| &e.kind), Some(TraceEventKind::LoopTickStarted { tick_id: 1 })));
    assert!(matches!(kinds.last().map(|e| &e.kind), Some(TraceEventKind::LoopTickCompleted { tick_id: 1 })));
    assert!(matches!(&kinds[kinds.len() - 2].kind, TraceEventKind::StateCommitted { state_node_id, .. } if *state_node_id == outcome.state_commit.node_id));
    let sequences: Vec<u64> = kinds.iter().map(|e| e.sequence).collect();
    assert_eq!(sequences, (0..kinds.len() as u64).collect::<Vec<u64>>());
    assert_eq!(e.agent().state_head, Some(outcome.state_commit.node_id));
}

#[test]
fn snapshots_follow_the_interval() {
    let (mut e, _events, _calls) = engine(10, 20, &[], &[]);
    let first = e.tick(1).expect("tick one");
    assert!(first.state_commit.snapshot_id.is_none());
    let second = e.tick(2).expect("tick two");
    assert!(second.state_commit.snapshot_id.is_some());
}

#[test]
fn scheduler_rotates_agents_and_reports_missing_ones() {
    let mut empty: Scheduler<SharedSink, VerifiedActionGateway<TenantRegistry, CountingAdapter>, TestStore> =
        Scheduler::new(SchedulerConfig { tick_budget: None, tick_interval: None });
    assert!(matches!(empty.run_once(), Err(SchedulerError::NoAgents)));
    assert!(matches!(empty.record_event_for_agent(&AgentId::from_u128(1), TraceEventKind::RunStarted), Err(SchedulerError::NoAgents)));

    let mut s = Scheduler::with_registry(SchedulerConfig { tick_budget: None, tick_interval: None }, registry(TenantId::from_u128(1), &[]));
    let (a, _ea, _) = engine(1, 101, &[], &[]);
    let (b, _eb, _) = engine(2, 102, &[], &[]);
    s.add_agent(a);
    s.add_agent(b);
    let first = s.run_once().expect("first");
    let second = s.run_once().expect("second");
    let third = s.run_once().expect("third");
    assert_eq!(first.agent_id, AgentId::from_u128(1));
    assert_eq!(second.agent_id, AgentId::from_u128(2));
    assert_eq!(third.agent_id, AgentId::from_u128(1));
    assert_eq!(first.tick_id, second.tick_id);
    assert_eq!(third.tick_id, first.tick_id + 1);
    let steps = s.run_cycle().expect("cycle");
    assert_eq!(steps.len(), 2);
    assert!(s.record_event_for_agent(&AgentId::from_u128(2), TraceEventKind::RunStarted).is_ok());
}

#[test]
fn scheduler_waits_out_the_tick_interval() {
    let config = SchedulerConfig { tick_budget: None, tick_interval: Some(Span::seconds(1)) };
    assert_eq!(remaining_interval(&config, Span::from_nanos(250_000_000)), Some(Span::from_nanos(750_000_000)));
    assert_eq!(remaining_interval(&config, Span::seconds(2)), None);
    assert_eq!(remaining_interval(&SchedulerConfig { tick_budget: None, tick_interval: None }, Span::seconds(0)), None);
}

#[test]
fn snapshot_policy_interval_and_labels() {
    let policy = SnapshotPolicy { interval: Some(3), important_labels: vec!["checkpoint".to_string()] };
    let plain = StateMetadata::new(Timestamp::unix_epoch(), None);
    let labelled = StateMetadata::new(Timestamp::unix_epoch(), Some("checkpoint".to_string()));
    assert!(policy.should_snapshot(3, &plain));
    assert!(!policy.should_snapshot(4, &plain));
    assert!(policy.should_snapshot(4, &labelled));
    let never = SnapshotPolicy { interval: Some(0), important_labels: Vec::new() };
    assert!(!never.should_snapshot(0, &plain));
}

fn rule(trigger: EscalationTrigger, threshold: u32, decision: EscalationDecision) -> EscalationRule {
    EscalationRule { trigger, threshold, decision, reason: "escalate".to_string() }
}

fn observation(trigger: EscalationTrigger, count: u32) -> EscalationObservation {
    EscalationObservation {
        trigger,
        scope: EscalationScope::Action,
        tenant_id: TenantId::from_u128(1),
        agent_id: AgentId::from_u128(2),
        run_id: RunId::from_u128(3),
        action_id: None,
        action_name: Some("act".to_string()),
        adapter: None,
        observed_count: count,
        evidence: Json::Null,
    }
}

#[test]
fn the_first_matching_escalation_rule_decides() {
    let evaluator = EscalationEvaluator::new(EscalationPolicy {
        rules: vec![
            rule(EscalationTrigger::RepeatedAdapterFailure, 3, EscalationDecision::Pause),
            rule(EscalationTrigger::RepeatedAdapterFailure, 1, EscalationDecision::Deny),
        ],
    });
    assert!(evaluator.evaluate(&observation(EscalationTrigger::QuotaPressure, 10)).is_none());
    let low = evaluator.evaluate(&observation(EscalationTrigger::RepeatedAdapterFailure, 1)).expect("deny rule");
    assert_eq!(low.decision, EscalationDecision::Deny);
    let high = evaluator.evaluate(&observation(EscalationTrigger::RepeatedAdapterFailure, 3)).expect("pause rule");
    assert_eq!(high.decision, EscalationDecision::Pause);
    assert_eq!(high.threshold, 3);
    assert!(escalations_require_intervention(&[high]));
    assert!(!escalations_require_intervention(&[low]));
    assert_eq!(EscalationTrigger::SafetyRisk.reason_code(), "safety_risk");
    assert!(EscalationDecision::NeedsIntervention.requires_intervention());
    assert!(!EscalationDecision::Deny.requires_intervention());
}

fn persisted_parts(tenant: TenantId, agent: u128) -> (AgentContext, StateGraph<TestStore>, VerifiedActionGateway<TenantRegistry, CountingAdapter>) {
    (
        AgentContext::new(AgentId::from_u128(agent), tenant, AgentRuntimeConfig::empty()),
        StateGraph::new(TestStore::default(), SnapshotPolicy { interval: None, important_labels: Vec::new() }),
        VerifiedActionGateway::new(registry(tenant, &[])),
    )
}

fn work_order(tenant: TenantId, agent: u128, run: u128) -> WorkOrderAuthorization {
    WorkOrderAuthorization {
        work_order_id: 0xabc,
        tenant_id: tenant,
        agent_id: AgentId::from_u128(agent),
        run_id: Some(RunId::from_u128(run)),
        allowed_scopes: Vec::new(),
        expires_at: Timestamp { unix_nanos: i128::MAX },
        signature: None,
        revocation: RevocationStatus::Active,
    }
}

fn policy() -> Box<ProposingPolicy> {
    Box::new(ProposingPolicy { names: Vec::new() })
}

#[test]
fn a_fresh_persisted_run_opens_with_run_started_and_its_work_order() {
    let tenant = TenantId::from_u128(1);
    let (agent, graph, gateway) = persisted_parts(tenant, 3);
    let sink = SharedSink::default();
    let events = Rc::clone(&sink.events);
    let context = RunTraceContext::new(Some(RunId::from_u128(40))).with_work_order(work_order(tenant, 3, 40));
    let engine: TestEngine = LoopEngine::with_trace_store_and_work_order(
        agent,
        graph,
        StateData { bytes: Vec::new(), content_type: None },
        policy(),
        gateway,
        sink,
        None,
        RunId::from_u128(99),
        context,
    )
    .expect("engine");
    assert_eq!(engine.runtime().run_id(), RunId::from_u128(40));
    let recorded = events.borrow();
    assert_eq!(recorded.len(), 2);
    assert!(matches!(recorded[0].kind, TraceEventKind::RunStarted));
    assert_eq!(recorded[0].sequence, 0);
    match &recorded[1].kind {
        TraceEventKind::WorkOrderAccepted { work_order_id, run_id, .. } => {
            assert_eq!(*work_order_id, 0xabc);
            assert_eq!(*run_id, Some(RunId::from_u128(40)));
        }
        other => panic!("unexpected {other:?}"),
    }
    assert_eq!(
        engine.agent().config.metadata,
        vec![("work_order_id".to_string(), format!("{}", uuid(0xabcu128)))]
    );
}

#[test]
fn a_persisted_run_continues_after_its_stored_events() {
    let tenant = TenantId::from_u128(1);
    let (agent, graph, gateway) = persisted_parts(tenant, 3);
    let sink = SharedSink::default();
    let events = Rc::clone(&sink.events);
    let engine: TestEngine = LoopEngine::with_trace_store(
        agent,
        graph,
        StateData { bytes: Vec::new(), content_type: None },
        policy(),
        gateway,
        sink,
        Some(4),
        None,
        RunId::from_u128(77),
    )
    .expect("engine");
    assert_eq!(engine.runtime().run_id(), RunId::from_u128(77));
    assert_eq!(engine.runtime().next_sequence(), 5);
    assert!(events.borrow().is_empty());
    assert!(engine.agent().config.metadata.is_empty());
}

#[test]
fn a_store_at_the_last_sequence_cannot_take_more_events() {
    let tenant = TenantId::from_u128(1);
    let (agent, graph, gateway) = persisted_parts(tenant, 3);
    let result: Result<TestEngine, LoopError> = LoopEngine::with_trace_store(
        agent,
        graph,
        StateData { bytes: Vec::new(), content_type: None },
        policy(),
        gateway,
        SharedSink::default(),
        Some(u64::MAX),
        Some(RunId::from_u128(1)),
        RunId::from_u128(2),
    );
    assert!(matches!(result, Err(LoopError::Trace(TraceError::SequenceOverflow(s))) if s == u64::MAX));
}

fn stored(run: u128, sequence: u64, kind: TraceEventKind) -> TraceEvent {
    let run_id = RunId::from_u128(run);
    TraceEvent {
        trace_event_id: splendor::ids::TraceEventId::from_run_sequence(&run_id, sequence),
        run_id,
        sequence,
        timestamp: Timestamp { unix_nanos: 0 },
        identity: splendor::trace::TraceIdentity::for_run(run_id),
        kind,
    }
}

#[test]
fn resuming_from_a_store_restores_the_last_snapshot() {
    let tenant = TenantId::from_u128(1);
    let (agent, _, gateway) = persisted_parts(tenant, 3);
    let mut store = TestStore::default();
    store.next = 100;
    store.snapshots.insert(
        8,
        StateSnapshot { snapshot_id: SnapshotId { value: 8 }, node_id: StateNodeId { value: 6 }, state: StateData { bytes: b"saved".to_vec(), content_type: None } },
    );
    let graph = StateGraph::new(store, SnapshotPolicy { interval: None, important_labels: Vec::new() });
    let history = vec![
        stored(50, 0, TraceEventKind::RunStarted),
        stored(50, 1, TraceEventKind::LoopTickCompleted { tick_id: 6 }),
        stored(50, 2, TraceEventKind::StateCommitted { state_node_id: StateNodeId { value: 6 }, snapshot_id: Some(SnapshotId { value: 8 }) }),
        stored(50, 3, TraceEventKind::LoopTickCompleted { tick_id: 7 }),
    ];
    let sink = SharedSink::default();
    let events = Rc::clone(&sink.events);
    let engine: TestEngine = LoopEngine::resume_from_trace_store(agent, graph, policy(), gateway, sink, &history, Some(3), RunId::from_u128(50))
        .expect("resumed");
    assert_eq!(engine.state_graph().tick(), 7);
    assert!(engine.state_graph().head().is_some());
    assert_eq!(engine.agent().state_head, engine.state_graph().head());
    assert_eq!(engine.runtime().next_sequence(), 4);
    assert!(events.borrow().is_empty());
}

#[test]
fn resuming_without_a_snapshot_fails() {
    let tenant = TenantId::from_u128(1);
    let (agent, graph, gateway) = persisted_parts(tenant, 3);
    let history = vec![stored(50, 0, TraceEventKind::RunStarted)];
    let result: Result<TestEngine, LoopError> = LoopEngine::resume_from_trace_store_with_work_order(
        agent,
        graph,
        policy(),
        gateway,
        SharedSink::default(),
        &history,
        Some(0),
        RunId::from_u128(50),
        Some(work_order(tenant, 3, 50)),
    );
    assert!(matches!(result, Err(LoopError::Resume(m)) if m == "no snapshot found in trace history"));
}
