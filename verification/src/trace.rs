//! Trace events, trace sinks and the kernel runtime that stamps every event
//! with its run and a monotonic sequence number before handing it to a sink.

use vstd::prelude::*;
use crate::clock::{Timestamp, now_utc};
use crate::ids::{ActionId, AgentId, RunId, StateNodeId, TenantId, TraceEventId};
use crate::json::Json;
use crate::message::{MessageTraceContext, RemoteMessageTraceContext};
use crate::delegation::{LocalDelegationTraceContext, TaskFailure};
use crate::verification::VerificationResult;
use crate::daemon::TraceRecord;
use crate::textual::{decimal_text, uuid_text, uuid_string, u64_text};
use crate::state::{SnapshotId, StateHandoff, StateHandoffAuthority, StateReference, StateReferenceMode};

verus! {

/// What happened at one point of a run.
#[derive(Clone, Debug)]
pub enum TraceEventKind {
    RunStarted,
    RunPaused { reason: Option<String> },
    RunResumed { reason: Option<String> },
    RunStopped { reason: Option<String> },
    LoopTickStarted { tick_id: u64 },
    LoopTickCompleted { tick_id: u64 },
    PerceptsReceived { count: u64 },
    PerceptsAppended { count: u64, schemas: Vec<String> },
    StateLoaded { state_node_id: Option<StateNodeId> },
    PolicyInvoked { policy: String },
    PolicyCompleted { policy: String },
    CandidatesProposed { actions: Vec<String> },
    ConstraintsEvaluated { result: VerificationResult },
    ActionVerificationStarted { action: String },
    ActionVerificationCompleted { action: String, result: VerificationResult },
    ActionExecuted { action: String, outcome: Json },
    ActionDenied { action: String, result: VerificationResult },
    ActionNeedsApproval { action: String, result: VerificationResult },
    ActionNeedsIntervention { action: String, result: VerificationResult },
    ActionFailed { action: String, error: String, result: VerificationResult },
    EscalationTriggered { reason: String },
    ApprovalRequested { approval: Json },
    ApprovalGranted { approval: Json },
    ApprovalExpired { approval: Json, reason: String },
    ApprovalRevoked { approval: Json, reason: String },
    ApprovalDenied { approval: Json, reason: String },
    OutcomeRecorded { outcome: Json },
    StateCommitted { state_node_id: StateNodeId, snapshot_id: Option<crate::state::SnapshotId> },
    WorkOrderAccepted { work_order_id: u128, tenant_id: TenantId, agent_id: AgentId, run_id: Option<RunId> },
    MessageQueued { message: MessageTraceContext },
    MessageDelivered { message: MessageTraceContext },
    MessageConsumed { message: MessageTraceContext },
    MessageRejected { message: MessageTraceContext, reason: String },
    MessageExpired { message: MessageTraceContext, reason: Option<String> },
    DelegationRequested { delegation: LocalDelegationTraceContext },
    DelegationRejected { delegation: LocalDelegationTraceContext, reason: String },
    ChildRunStarted { delegation: LocalDelegationTraceContext },
    ChildRunCompleted { delegation: LocalDelegationTraceContext },
    ChildRunFailed { delegation: LocalDelegationTraceContext, failure: TaskFailure },
    ParentRunCancelled { parent_run_id: RunId, agent_id: AgentId, reason: String },
    PolicyExpired { policy_bundle_id: u128, version: String, action: Option<String> },
    PolicyRevoked { policy_bundle_id: u128, version: String, reason: String },
    StateHandoffExported { handoff: StateHandoffTraceContext },
    StateHandoffImported { handoff: StateHandoffTraceContext },
    StateHandoffImportFailed { handoff: StateHandoffTraceContext, reason: String },
    ReadOnlyStateReferenced { handoff: StateHandoffTraceContext },
    RemoteMessageSent { remote_message: RemoteMessageTraceContext },
    RemoteMessageAccepted { remote_message: RemoteMessageTraceContext },
    RemoteMessageDelivered { remote_message: RemoteMessageTraceContext },
    RemoteMessageDuplicate { remote_message: RemoteMessageTraceContext, reason: String },
    RemoteMessageRejected { remote_message: RemoteMessageTraceContext, reason: String },
    RemoteMessageTimedOut { remote_message: RemoteMessageTraceContext, reason: String },
    RemoteMessageTransportFailed { remote_message: RemoteMessageTraceContext, reason: String },
}

/// What a trace records of a state handoff or of a read-only reference.
#[derive(Clone, Debug)]
pub struct StateHandoffTraceContext {
    pub handoff_id: String,
    pub mode: StateReferenceMode,
    pub authority: StateHandoffAuthority,
    pub snapshot_id: SnapshotId,
    pub source_instance_id: Option<String>,
    pub receiver_instance_id: Option<String>,
    pub receiver_state_node_id: Option<String>,
    pub source_trace_id: Option<TraceEventId>,
}

/// The context of a handoff as its source exported it.
pub open spec fn exported_context(h: StateHandoff) -> StateHandoffTraceContext {
    StateHandoffTraceContext {
        handoff_id: h.handoff_id,
        mode: h.mode,
        authority: h.authority,
        snapshot_id: h.snapshot.snapshot_id,
        source_instance_id: h.source_instance_id,
        receiver_instance_id: h.receiver_instance_id,
        receiver_state_node_id: None,
        source_trace_id: h.source_trace_id,
    }
}

/// The context of a handoff imported into the receiver's state node.
pub open spec fn imported_context(h: StateHandoff, receiver_state_node_id: String) -> StateHandoffTraceContext {
    StateHandoffTraceContext { receiver_state_node_id: Some(receiver_state_node_id), ..exported_context(h) }
}

/// The context of an attached read-only reference.
pub open spec fn referenced_context(r: StateReference) -> StateHandoffTraceContext {
    StateHandoffTraceContext {
        handoff_id: r.reference_id,
        mode: r.mode,
        authority: r.authority,
        snapshot_id: r.snapshot_id,
        source_instance_id: None,
        receiver_instance_id: None,
        receiver_state_node_id: None,
        source_trace_id: r.source_trace_id,
    }
}

fn copy_text(o: &Option<String>) -> (r: Option<String>)
    ensures
        r == *o,
{
    match o {
        Some(s) => Some(s.clone()),
        None => None,
    }
}

impl StateHandoffTraceContext {
    /// The context of an exported handoff.
    pub fn exported(handoff: &StateHandoff) -> (r: StateHandoffTraceContext)
        ensures
            r == exported_context(*handoff),
    {
        StateHandoffTraceContext {
            handoff_id: handoff.handoff_id.clone(),
            mode: handoff.mode,
            authority: handoff.authority,
            snapshot_id: handoff.snapshot.snapshot_id,
            source_instance_id: copy_text(&handoff.source_instance_id),
            receiver_instance_id: copy_text(&handoff.receiver_instance_id),
            receiver_state_node_id: None,
            source_trace_id: handoff.source_trace_id,
        }
    }

    /// The context of a handoff imported into `receiver_state_node_id`.
    pub fn imported(handoff: &StateHandoff, receiver_state_node_id: String) -> (r: StateHandoffTraceContext)
        ensures
            r == imported_context(*handoff, receiver_state_node_id),
    {
        let base = StateHandoffTraceContext::exported(handoff);
        StateHandoffTraceContext { receiver_state_node_id: Some(receiver_state_node_id), ..base }
    }

    /// The context of a read-only reference.
    pub fn referenced(reference: &StateReference) -> (r: StateHandoffTraceContext)
        ensures
            r == referenced_context(*reference),
    {
        StateHandoffTraceContext {
            handoff_id: reference.reference_id.clone(),
            mode: reference.mode,
            authority: reference.authority,
            snapshot_id: reference.snapshot_id,
            source_instance_id: None,
            receiver_instance_id: None,
            receiver_state_node_id: None,
            source_trace_id: reference.source_trace_id,
        }
    }
}

/// Who and what an event is about, beyond its run.
#[derive(Clone, Copy, Debug, PartialEq, Eq, Structural)]
pub struct TraceIdentity {
    pub run_id: RunId,
    pub tenant_id: Option<TenantId>,
    pub agent_id: Option<AgentId>,
    pub tick_id: Option<u64>,
    pub action_id: Option<ActionId>,
    pub state_node_id: Option<StateNodeId>,
}

impl TraceIdentity {
    /// An identity that names only the run.
    pub fn for_run(run_id: RunId) -> (r: TraceIdentity)
        ensures
            r == run_identity(run_id),
    {
        TraceIdentity { run_id, tenant_id: None, agent_id: None, tick_id: None, action_id: None, state_node_id: None }
    }
}

pub open spec fn run_identity(run_id: RunId) -> TraceIdentity {
    TraceIdentity { run_id, tenant_id: None, agent_id: None, tick_id: None, action_id: None, state_node_id: None }
}

/// One recorded event of a run.
#[derive(Clone, Debug)]
pub struct TraceEvent {
    pub trace_event_id: TraceEventId,
    pub run_id: RunId,
    pub sequence: u64,
    pub timestamp: Timestamp,
    pub identity: TraceIdentity,
    pub kind: TraceEventKind,
}

/// Why an event could not be recorded.
#[derive(Clone, Debug, PartialEq, Eq)]
pub enum TraceError {
    Serialization(String),
    Store(TraceStoreError),
    SequenceMismatch { expected: u64, actual: u64 },
    SequenceOverflow(u64),
    IntegrityLock,
    IdentityRunMismatch { runtime_run_id: RunId, identity_run_id: RunId },
    HandoffRunMismatch { runtime_run_id: RunId, handoff_run_id: RunId },
}

/// The description of a trace error.
pub open spec fn trace_error_text(e: TraceError) -> Seq<char> {
    match e {
        TraceError::Serialization(d) => "failed to serialize trace event: "@ + d@,
        TraceError::Store(s) => "trace store error: "@ + trace_store_message(s),
        TraceError::SequenceMismatch { expected, actual } =>
            "trace sequence mismatch: expected "@ + decimal_text(expected) + " but stored "@ + decimal_text(actual),
        TraceError::SequenceOverflow(v) => "trace sequence overflow for value: "@ + decimal_text(v),
        TraceError::IntegrityLock => "trace integrity lock poisoned"@,
        TraceError::IdentityRunMismatch { runtime_run_id, identity_run_id } =>
            "trace identity run mismatch: runtime "@ + uuid_text(runtime_run_id.value) + ", identity "@ + uuid_text(identity_run_id.value),
        TraceError::HandoffRunMismatch { runtime_run_id, handoff_run_id } =>
            "state handoff run mismatch: runtime "@ + uuid_text(runtime_run_id.value) + ", handoff "@ + uuid_text(handoff_run_id.value),
    }
}

impl TraceError {
    /// Human-readable description.
    pub fn message(&self) -> (r: String)
        ensures
            r@ == trace_error_text(*self),
    {
        match self {
            TraceError::Serialization(d) => String::from_str("failed to serialize trace event: ").concat(d.as_str()),
            TraceError::Store(e) => {
                let d = e.message();
                String::from_str("trace store error: ").concat(d.as_str())
            },
            TraceError::SequenceMismatch { expected, actual } => {
                let e = u64_text(*expected);
                let a = u64_text(*actual);
                String::from_str("trace sequence mismatch: expected ").concat(e.as_str()).concat(" but stored ").concat(a.as_str())
            },
            TraceError::SequenceOverflow(v) => {
                let t = u64_text(*v);
                String::from_str("trace sequence overflow for value: ").concat(t.as_str())
            },
            TraceError::IntegrityLock => String::from_str("trace integrity lock poisoned"),
            TraceError::IdentityRunMismatch { runtime_run_id, identity_run_id } => {
                let a = uuid_string(runtime_run_id.value);
                let b = uuid_string(identity_run_id.value);
                String::from_str("trace identity run mismatch: runtime ").concat(a.as_str()).concat(", identity ").concat(b.as_str())
            },
            TraceError::HandoffRunMismatch { runtime_run_id, handoff_run_id } => {
                let a = uuid_string(runtime_run_id.value);
                let b = uuid_string(handoff_run_id.value);
                String::from_str("state handoff run mismatch: runtime ").concat(a.as_str()).concat(", handoff ").concat(b.as_str())
            },
        }
    }
}

/// Why a trace store could not answer.
#[derive(Clone, Debug, PartialEq, Eq)]
pub enum TraceStoreError {
    RunNotFound,
    Poisoned,
    Backend(String),
}

pub open spec fn trace_store_message(e: TraceStoreError) -> Seq<char> {
    match e {
        TraceStoreError::RunNotFound => "trace run not found"@,
        TraceStoreError::Poisoned => "trace store lock poisoned"@,
        TraceStoreError::Backend(d) => d@,
    }
}

impl TraceStoreError {
    pub fn message(&self) -> (r: String)
        ensures
            r@ == trace_store_message(*self),
    {
        match self {
            TraceStoreError::RunNotFound => String::from_str("trace run not found"),
            TraceStoreError::Poisoned => String::from_str("trace store lock poisoned"),
            TraceStoreError::Backend(d) => d.clone(),
        }
    }
}

/// Where recorded events go (stdout, a store, memory). Implemented by the
/// users of the runtime; a failing sink makes the recording call fail.
pub trait TraceSink {
    fn record(&mut self, event: &TraceEvent) -> Result<(), TraceError>;
}

/// Append-only storage of runs' trace records, numbered per run from 0.
/// Implemented by the hosts that persist traces.
pub trait TraceStore {
    /// Appends `event` to the records of `run_id` and returns the sequence
    /// the store gave it.
    fn append(&mut self, run_id: &RunId, event: &TraceEvent) -> Result<u64, TraceStoreError>;

    /// The records of `run_id`, in order.
    fn read(&self, run_id: &RunId) -> Result<Vec<TraceRecord>, TraceStoreError>;
}

/// The last stored sequence of a run from what its store read returned: the
/// last record's sequence, none for an unknown or empty run, the store's
/// error otherwise.
pub fn latest_stored_sequence(read: Result<Vec<TraceRecord>, TraceStoreError>) -> (r: Result<Option<u64>, TraceError>)
    ensures
        read matches Ok(records) ==> r == Ok::<Option<u64>, TraceError>(
            if records@.len() == 0 { None } else { Some(records@.last().sequence) }),
        read matches Err(e) ==> r == if e is RunNotFound { Ok::<Option<u64>, TraceError>(None) } else { Err(TraceError::Store(e)) },
{
    match read {
        Ok(records) => {
            let n = records.len();
            if n == 0 {
                Ok(None)
            } else {
                Ok(Some(records[n - 1].sequence))
            }
        },
        Err(TraceStoreError::RunNotFound) => Ok(None),
        Err(e) => Err(TraceError::Store(e)),
    }
}

/// Whether a store kept an event under the sequence the runtime gave it.
pub fn check_stored_sequence(expected: u64, stored: Result<u64, TraceStoreError>) -> (r: Result<(), TraceError>)
    ensures
        stored matches Ok(actual) ==> r == if actual == expected { Ok::<(), TraceError>(()) } else {
            Err(TraceError::SequenceMismatch { expected, actual }) },
        stored matches Err(e) ==> r == Err::<(), TraceError>(TraceError::Store(e)),
{
    match stored {
        Ok(actual) => if actual == expected { Ok(()) } else { Err(TraceError::SequenceMismatch { expected, actual }) },
        Err(e) => Err(TraceError::Store(e)),
    }
}

/// A sink that persists a run's events into a trace store.
pub struct TraceStoreSink<T: TraceStore> {
    run_id: RunId,
    store: T,
}

impl<T: TraceStore> TraceStoreSink<T> {
    pub closed spec fn bound_run(&self) -> RunId {
        self.run_id
    }

    /// A sink for `run_id` over `store`.
    pub fn new(run_id: RunId, store: T) -> (r: Self)
        ensures
            r.bound_run() == run_id,
    {
        TraceStoreSink { run_id, store }
    }

    pub fn run_id(&self) -> (r: RunId)
        ensures
            r == self.bound_run(),
    {
        self.run_id
    }

    /// The store, for reading.
    pub fn store(&self) -> (r: &T) {
        &self.store
    }

    /// The latest sequence the store holds for this run, if any.
    pub fn latest_sequence(&self) -> (r: Result<Option<u64>, TraceError>) {
        latest_stored_sequence(self.store.read(&self.run_id))
    }
}

impl<T: TraceStore> TraceSink for TraceStoreSink<T> {
    /// Appends the event; a store that numbers it otherwise than the runtime
    /// did is a sequence mismatch.
    fn record(&mut self, event: &TraceEvent) -> (r: Result<(), TraceError>)
        ensures
            final(self).bound_run() == old(self).bound_run(),
            r is Ok
                || (r matches Err(TraceError::SequenceMismatch { expected, actual }) && expected == event.sequence && actual != expected)
                || (r matches Err(TraceError::Store(_))),
    {
        let stored = self.store.append(&event.run_id, event);
        check_stored_sequence(event.sequence, stored)
    }
}

impl<T: TraceStore> KernelRuntime<TraceStoreSink<T>> {
    /// A runtime persisting into `store` for `run_id` (else `fresh_run_id`),
    /// numbering on after the events the store already holds for the run.
    pub fn with_trace_store(store: T, run_id: Option<RunId>, fresh_run_id: RunId) -> (r: Result<Self, TraceError>)
        ensures
            r matches Ok(rt) ==> rt.run() == (match run_id { Some(id) => id, None => fresh_run_id })
                && rt.events() == Seq::<TraceEventKind>::empty()
                && rt.event_ids() == Seq::<TraceEventId>::empty(),
    {
        let run = match run_id {
            Some(id) => id,
            None => fresh_run_id,
        };
        let sink = TraceStoreSink::new(run, store);
        let latest = sink.latest_sequence()?;
        let initial_sequence = resume_sequence(latest)?;
        Ok(KernelRuntime::new(KernelRuntimeConfig { trace_sink: sink, run_id: run, initial_sequence }))
    }
}

/// The sequence number that follows `s` (the counter wraps at the top).
pub open spec fn next_sequence_after(s: u64) -> u64 {
    if s == u64::MAX { 0 } else { (s + 1) as u64 }
}

/// The sequence a runtime resumes at, given the last stored sequence.
pub open spec fn resume_sequence_spec(latest: Option<u64>) -> Result<u64, TraceError> {
    match latest {
        None => Ok(0),
        Some(s) => if s == u64::MAX { Err(TraceError::SequenceOverflow(s)) } else { Ok((s + 1) as u64) },
    }
}

/// The first sequence to assign after the latest stored one: 0 for a new
/// run, the successor otherwise, an overflow error at the top.
pub fn resume_sequence(latest: Option<u64>) -> (r: Result<u64, TraceError>)
    ensures
        r == resume_sequence_spec(latest),
{
    match latest {
        None => Ok(0),
        Some(s) => if s == u64::MAX { Err(TraceError::SequenceOverflow(s)) } else { Ok(s + 1) },
    }
}

/// Configuration for a kernel runtime.
pub struct KernelRuntimeConfig<S: TraceSink> {
    pub trace_sink: S,
    pub run_id: RunId,
    pub initial_sequence: u64,
}

/// Execution context that stamps events with its run and sequence.
pub struct KernelRuntime<S: TraceSink> {
    run_id: RunId,
    sequence: u64,
    trace_sink: S,
    log: Ghost<Seq<TraceEventKind>>,
    id_log: Ghost<Seq<TraceEventId>>,
    fail_count: Ghost<nat>,
}

impl<S: TraceSink> KernelRuntime<S> {
    /// The run this runtime records for.
    pub closed spec fn run(&self) -> RunId {
        self.run_id
    }

    /// The sequence number the next event will carry.
    pub closed spec fn next_seq(&self) -> u64 {
        self.sequence
    }

    /// The kinds of the events the sink accepted, in order.
    pub closed spec fn events(&self) -> Seq<TraceEventKind> {
        self.log@
    }

    /// The trace ids of the events the sink accepted, in order.
    pub closed spec fn event_ids(&self) -> Seq<TraceEventId> {
        self.id_log@
    }

    /// How many recordings have failed so far.
    pub closed spec fn failures(&self) -> nat {
        self.fail_count@
    }

    /// A runtime over the configured run, sink and starting sequence.
    pub fn new(config: KernelRuntimeConfig<S>) -> (r: Self)
        ensures
            r.run() == config.run_id,
            r.next_seq() == config.initial_sequence,
            r.events() == Seq::<TraceEventKind>::empty(),
            r.event_ids() == Seq::<TraceEventId>::empty(),
            r.failures() == 0,
    {
        KernelRuntime { run_id: config.run_id, sequence: config.initial_sequence, trace_sink: config.trace_sink, log: Ghost(Seq::empty()),
            id_log: Ghost(Seq::empty()), fail_count: Ghost(0) }
    }

    /// Builds the runtime and records the opening `LoopTickStarted { tick_id: 0 }`.
    pub fn boot(config: KernelRuntimeConfig<S>) -> (r: Result<Self, TraceError>)
        ensures
            r matches Ok(rt) ==> rt.run() == config.run_id
                && rt.next_seq() == next_sequence_after(config.initial_sequence)
                && rt.events() == seq![TraceEventKind::LoopTickStarted { tick_id: 0 }],
    {
        let mut runtime = Self::new(config);
        match runtime.record_event(TraceEventKind::LoopTickStarted { tick_id: 0 }) {
            Ok(_) => Ok(runtime),
            Err(e) => Err(e),
        }
    }

    pub fn run_id(&self) -> (r: RunId)
        ensures
            r == self.run(),
    {
        self.run_id
    }

    /// The identity naming only this runtime's run.
    pub fn trace_identity(&self) -> (r: TraceIdentity)
        ensures
            r == run_identity(self.run()),
    {
        TraceIdentity::for_run(self.run_id)
    }

    pub fn next_sequence(&self) -> (r: u64)
        ensures
            r == self.next_seq(),
    {
        self.sequence
    }

    /// Records an event under the runtime's own identity.
    pub fn record_event(&mut self, kind: TraceEventKind) -> (r: Result<TraceEvent, TraceError>)
        ensures
            final(self).run() == old(self).run(),
            final(self).next_seq() == next_sequence_after(old(self).next_seq()),
            r is Ok ==> final(self).events() == old(self).events().push(kind),
            r is Err ==> final(self).events() == old(self).events(),
            r matches Ok(ev) ==> ev.sequence == old(self).next_seq()
                && ev.run_id == old(self).run()
                && ev.trace_event_id == (TraceEventId { run_id: old(self).run(), sequence: old(self).next_seq() })
                && ev.identity == run_identity(old(self).run())
                && ev.kind == kind,
            r matches Ok(ev) ==> final(self).event_ids() == old(self).event_ids().push(ev.trace_event_id),
            r is Err ==> final(self).event_ids() == old(self).event_ids(),
            r is Ok ==> final(self).failures() == old(self).failures(),
            r is Err ==> final(self).failures() == old(self).failures() + 1,
    {
        let identity = self.trace_identity();
        self.record_event_with_identity(identity, kind)
    }

    /// Records an event under an explicit identity, which must name this
    /// runtime's run. Every call that passes that check takes a sequence
    /// number, whether or not the sink accepts the event.
    pub fn record_event_with_identity(&mut self, identity: TraceIdentity, kind: TraceEventKind) -> (r: Result<TraceEvent, TraceError>)
        ensures
            final(self).run() == old(self).run(),
            identity.run_id != old(self).run() ==> r == Err::<TraceEvent, TraceError>(TraceError::IdentityRunMismatch {
                runtime_run_id: old(self).run(),
                identity_run_id: identity.run_id,
            }) && final(self).next_seq() == old(self).next_seq(),
            identity.run_id == old(self).run() ==> final(self).next_seq() == next_sequence_after(old(self).next_seq()),
            r is Ok ==> final(self).events() == old(self).events().push(kind),
            r is Err ==> final(self).events() == old(self).events(),
            r matches Ok(ev) ==> ev.sequence == old(self).next_seq()
                && ev.run_id == old(self).run()
                && ev.trace_event_id == (TraceEventId { run_id: old(self).run(), sequence: old(self).next_seq() })
                && ev.identity == identity
                && ev.kind == kind,
            r matches Ok(ev) ==> final(self).event_ids() == old(self).event_ids().push(ev.trace_event_id),
            r is Err ==> final(self).event_ids() == old(self).event_ids(),
            r is Ok ==> final(self).failures() == old(self).failures(),
            r is Err ==> final(self).failures() == old(self).failures() + 1,
    {
        if identity.run_id != self.run_id {
            proof { self.fail_count@ = self.fail_count@ + 1; }
            return Err(TraceError::IdentityRunMismatch { runtime_run_id: self.run_id, identity_run_id: identity.run_id });
        }
        let sequence = self.sequence;
        self.sequence = if sequence == u64::MAX { 0 } else { sequence + 1 };
        let event = TraceEvent {
            trace_event_id: TraceEventId::from_run_sequence(&self.run_id, sequence),
            run_id: self.run_id,
            sequence,
            timestamp: now_utc(),
            identity,
            kind,
        };
        match self.trace_sink.record(&event) {
            Ok(()) => {
                proof {
                    self.log@ = self.log@.push(event.kind);
                    self.id_log@ = self.id_log@.push(event.trace_event_id);
                }
                Ok(event)
            },
            Err(e) => {
                proof { self.fail_count@ = self.fail_count@ + 1; }
                Err(e)
            },
        }
    }

    /// The sink, for inspection.
    pub fn sink(&self) -> (r: &S) {
        &self.trace_sink
    }

    /// Handoffs and references may only be traced by the runtime of their run.
    fn ensure_handoff_run_scope(&self, handoff_run_id: &RunId) -> (r: Result<(), TraceError>)
        ensures
            r is Ok <==> *handoff_run_id == self.run(),
            r matches Err(e) ==> e == (TraceError::HandoffRunMismatch { runtime_run_id: self.run(), handoff_run_id: *handoff_run_id }),
    {
        if self.run_id == *handoff_run_id {
            Ok(())
        } else {
            Err(TraceError::HandoffRunMismatch { runtime_run_id: self.run_id, handoff_run_id: *handoff_run_id })
        }
    }

    /// Records a source-side handoff export and stores the event's trace id
    /// in the handoff.
    pub fn record_state_handoff_exported(&mut self, handoff: &mut StateHandoff) -> (r: Result<TraceEvent, TraceError>)
        ensures
            final(self).run() == old(self).run(),
            old(handoff).authority.run_id != old(self).run() ==> r == Err::<TraceEvent, TraceError>(TraceError::HandoffRunMismatch {
                runtime_run_id: old(self).run(),
                handoff_run_id: old(handoff).authority.run_id,
            }) && final(self).next_seq() == old(self).next_seq(),
            old(handoff).authority.run_id == old(self).run() ==> final(self).next_seq() == next_sequence_after(old(self).next_seq()),
            r is Err ==> final(self).events() == old(self).events() && *final(handoff) == *old(handoff),
            r matches Ok(ev) ==> {
                &&& ev.sequence == old(self).next_seq()
                &&& ev.run_id == old(self).run()
                &&& ev.trace_event_id == (TraceEventId { run_id: old(self).run(), sequence: old(self).next_seq() })
                &&& ev.identity == run_identity(old(self).run())
                &&& ev.kind == (TraceEventKind::StateHandoffExported { handoff: exported_context(*old(handoff)) })
                &&& final(self).events() == old(self).events().push(ev.kind)
                &&& *final(handoff) == (StateHandoff { source_trace_id: Some(ev.trace_event_id), ..*old(handoff) })
            },
    {
        self.ensure_handoff_run_scope(&handoff.authority.run_id)?;
        let context = StateHandoffTraceContext::exported(handoff);
        let event = self.record_event(TraceEventKind::StateHandoffExported { handoff: context })?;
        handoff.source_trace_id = Some(event.trace_event_id);
        Ok(event)
    }

    /// Records a receiver-side successful handoff import.
    pub fn record_state_handoff_imported(&mut self, handoff: &StateHandoff, receiver_state_node_id: String) -> (r: Result<TraceEvent, TraceError>)
        ensures
            final(self).run() == old(self).run(),
            handoff.authority.run_id != old(self).run() ==> r == Err::<TraceEvent, TraceError>(TraceError::HandoffRunMismatch {
                runtime_run_id: old(self).run(),
                handoff_run_id: handoff.authority.run_id,
            }) && final(self).next_seq() == old(self).next_seq(),
            handoff.authority.run_id == old(self).run() ==> final(self).next_seq() == next_sequence_after(old(self).next_seq()),
            r is Err ==> final(self).events() == old(self).events(),
            r matches Ok(ev) ==> {
                &&& ev.sequence == old(self).next_seq()
                &&& ev.run_id == old(self).run()
                &&& ev.identity == run_identity(old(self).run())
                &&& ev.kind == (TraceEventKind::StateHandoffImported { handoff: imported_context(*handoff, receiver_state_node_id) })
                &&& final(self).events() == old(self).events().push(ev.kind)
            },
    {
        self.ensure_handoff_run_scope(&handoff.authority.run_id)?;
        let context = StateHandoffTraceContext::imported(handoff, receiver_state_node_id);
        self.record_event(TraceEventKind::StateHandoffImported { handoff: context })
    }

    /// Records a receiver-side failed handoff import.
    pub fn record_state_handoff_import_failed(&mut self, handoff: &StateHandoff, reason: String) -> (r: Result<TraceEvent, TraceError>)
        ensures
            final(self).run() == old(self).run(),
            handoff.authority.run_id != old(self).run() ==> r == Err::<TraceEvent, TraceError>(TraceError::HandoffRunMismatch {
                runtime_run_id: old(self).run(),
                handoff_run_id: handoff.authority.run_id,
            }) && final(self).next_seq() == old(self).next_seq(),
            handoff.authority.run_id == old(self).run() ==> final(self).next_seq() == next_sequence_after(old(self).next_seq()),
            r is Err ==> final(self).events() == old(self).events(),
            r matches Ok(ev) ==> {
                &&& ev.sequence == old(self).next_seq()
                &&& ev.run_id == old(self).run()
                &&& ev.identity == run_identity(old(self).run())
                &&& ev.kind == (TraceEventKind::StateHandoffImportFailed { handoff: exported_context(*handoff), reason })
                &&& final(self).events() == old(self).events().push(ev.kind)
            },
    {
        self.ensure_handoff_run_scope(&handoff.authority.run_id)?;
        let context = StateHandoffTraceContext::exported(handoff);
        self.record_event(TraceEventKind::StateHandoffImportFailed { handoff: context, reason })
    }

    /// Records the attachment of a read-only state reference.
    pub fn record_read_only_state_referenced(&mut self, reference: &StateReference) -> (r: Result<TraceEvent, TraceError>)
        ensures
            final(self).run() == old(self).run(),
            reference.authority.run_id != old(self).run() ==> r == Err::<TraceEvent, TraceError>(TraceError::HandoffRunMismatch {
                runtime_run_id: old(self).run(),
                handoff_run_id: reference.authority.run_id,
            }) && final(self).next_seq() == old(self).next_seq(),
            reference.authority.run_id == old(self).run() ==> final(self).next_seq() == next_sequence_after(old(self).next_seq()),
            r is Err ==> final(self).events() == old(self).events(),
            r matches Ok(ev) ==> {
                &&& ev.sequence == old(self).next_seq()
                &&& ev.run_id == old(self).run()
                &&& ev.identity == run_identity(old(self).run())
                &&& ev.kind == (TraceEventKind::ReadOnlyStateReferenced { handoff: referenced_context(*reference) })
                &&& final(self).events() == old(self).events().push(ev.kind)
            },
    {
        self.ensure_handoff_run_scope(&reference.authority.run_id)?;
        let context = StateHandoffTraceContext::referenced(reference);
        self.record_event(TraceEventKind::ReadOnlyStateReferenced { handoff: context })
    }
}

/// Records message and delegation lifecycle events for one run.
pub trait MessageTraceRecorder {
    /// The run that scopes recorded events.
    spec fn recorder_run(&self) -> RunId;

    /// The kinds of the events recorded so far, in order.
    spec fn recorded(&self) -> Seq<TraceEventKind>;

    /// The trace ids of the events recorded so far, in order.
    spec fn recorded_ids(&self) -> Seq<TraceEventId>;

    /// How many recordings have failed so far.
    spec fn failed_records(&self) -> nat;

    fn run_id(&self) -> (r: RunId)
        ensures
            r == self.recorder_run();

    /// Records an event and returns its trace id. The recorder stays bound
    /// to its run; a failed recording leaves the record unchanged.
    fn record_message_event(&mut self, kind: TraceEventKind) -> (r: Result<TraceEventId, TraceError>)
        ensures
            final(self).recorder_run() == old(self).recorder_run(),
            r is Ok ==> final(self).recorded() == old(self).recorded().push(kind),
            r is Err ==> final(self).recorded() == old(self).recorded(),
            r matches Ok(id) ==> id.run_id == old(self).recorder_run(),
            r matches Ok(id) ==> final(self).recorded_ids() == old(self).recorded_ids().push(id),
            r is Err ==> final(self).recorded_ids() == old(self).recorded_ids(),
            r is Ok ==> final(self).failed_records() == old(self).failed_records(),
            r is Err ==> final(self).failed_records() == old(self).failed_records() + 1;
}

impl<S: TraceSink> MessageTraceRecorder for KernelRuntime<S> {
    open spec fn recorder_run(&self) -> RunId {
        self.run()
    }

    open spec fn recorded(&self) -> Seq<TraceEventKind> {
        self.events()
    }

    open spec fn recorded_ids(&self) -> Seq<TraceEventId> {
        self.event_ids()
    }

    open spec fn failed_records(&self) -> nat {
        self.failures()
    }

    fn run_id(&self) -> (r: RunId) {
        self.run_id
    }

    fn record_message_event(&mut self, kind: TraceEventKind) -> (r: Result<TraceEventId, TraceError>)
        ensures
            final(self).next_seq() == next_sequence_after(old(self).next_seq()),
            r matches Ok(id) ==> id == (TraceEventId { run_id: old(self).run(), sequence: old(self).next_seq() }),
    {
        match self.record_event(kind) {
            Ok(ev) => Ok(ev.trace_event_id),
            Err(e) => Err(e),
        }
    }
}

} // verus!
