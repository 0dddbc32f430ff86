//! Local parent/child run delegation: admission of child runs under an
//! explicit delegated authority, task request/response messages, and the
//! trace events that link parent and child runs.

use vstd::prelude::*;
use crate::assoc::{assoc_get, is_last_index, lemma_assoc_absent, lemma_assoc_last, lemma_assoc_push, lemma_assoc_update};
use crate::clock::now_utc;
use crate::ids::{AgentId, MessageId, RunId, TenantId, TraceEventId};
use crate::json::{Json, json_get, json_str, text_array};
use crate::message::{Message, MessageTraceContext, MessageDeliveryStatus, MessageEnvelope, MessageValidationError, message_validation, env_view};
use crate::message_router::{LocalMessageRouter, MessageRouterError, RouteCheck};
use crate::tenancy::AgentContext;
use crate::textual::{uuid_text, uuid_string};
use crate::trace::{MessageTraceRecorder, TraceEventKind};
use crate::verification::{strs, copy_strings};

verus! {

/// Explicit authority granted to a run: the actions, adapters and
/// permissions it may use.
#[derive(Debug)]
pub struct DelegatedAuthority {
    pub allowed_actions: Vec<String>,
    pub allowed_adapters: Vec<String>,
    pub allowed_permissions: Vec<String>,
}

/// Every entry of `a` occurs in `b`.
pub open spec fn seq_subset(a: Seq<Seq<char>>, b: Seq<Seq<char>>) -> bool {
    forall|i: int| 0 <= i < a.len() ==> b.contains(#[trigger] a[i])
}

impl DelegatedAuthority {
    /// The authority that allows nothing.
    pub fn empty() -> (r: DelegatedAuthority)
        ensures
            r.allowed_actions@.len() == 0,
            r.allowed_adapters@.len() == 0,
            r.allowed_permissions@.len() == 0,
    {
        DelegatedAuthority { allowed_actions: Vec::new(), allowed_adapters: Vec::new(), allowed_permissions: Vec::new() }
    }

    /// `self` grants nothing that `other` does not.
    pub open spec fn subset_spec(&self, other: &DelegatedAuthority) -> bool {
        &&& seq_subset(strs(self.allowed_actions@), strs(other.allowed_actions@))
        &&& seq_subset(strs(self.allowed_adapters@), strs(other.allowed_adapters@))
        &&& seq_subset(strs(self.allowed_permissions@), strs(other.allowed_permissions@))
    }

    pub fn is_subset_of(&self, other: &DelegatedAuthority) -> (r: bool)
        ensures
            r == self.subset_spec(other),
    {
        contained_in(&self.allowed_actions, &other.allowed_actions)
            && contained_in(&self.allowed_adapters, &other.allowed_adapters)
            && contained_in(&self.allowed_permissions, &other.allowed_permissions)
    }

    /// Copies this authority.
    pub fn duplicate(&self) -> (r: DelegatedAuthority)
        ensures
            strs(r.allowed_actions@) == strs(self.allowed_actions@),
            strs(r.allowed_adapters@) == strs(self.allowed_adapters@),
            strs(r.allowed_permissions@) == strs(self.allowed_permissions@),
    {
        DelegatedAuthority {
            allowed_actions: copy_strings(&self.allowed_actions),
            allowed_adapters: copy_strings(&self.allowed_adapters),
            allowed_permissions: copy_strings(&self.allowed_permissions),
        }
    }
}

impl Clone for DelegatedAuthority {
    fn clone(&self) -> (r: Self)
        ensures
            strs(r.allowed_actions@) == strs(self.allowed_actions@),
            strs(r.allowed_adapters@) == strs(self.allowed_adapters@),
            strs(r.allowed_permissions@) == strs(self.allowed_permissions@),
    {
        self.duplicate()
    }
}

pub fn contains_str(list: &Vec<String>, value: &String) -> (r: bool)
    ensures
        r == strs(list@).contains(value@),
{
    let mut i: usize = 0;
    while i < list.len()
        invariant
            i <= list@.len(),
            forall|j: int| 0 <= j < i ==> #[trigger] list@[j]@ != value@,
        decreases list@.len() - i,
    {
        if list[i] == *value {
            assert(strs(list@)[i as int] == value@);
            return true;
        }
        i = i + 1;
    }
    assert(!strs(list@).contains(value@)) by {
        if strs(list@).contains(value@) {
            let k = choose|k: int| 0 <= k < strs(list@).len() && strs(list@)[k] == value@;
            assert(list@[k]@ == value@);
        }
    }
    false
}

pub fn contained_in(a: &Vec<String>, b: &Vec<String>) -> (r: bool)
    ensures
        r == seq_subset(strs(a@), strs(b@)),
{
    let mut i: usize = 0;
    while i < a.len()
        invariant
            i <= a@.len(),
            forall|j: int| 0 <= j < i ==> strs(b@).contains(#[trigger] strs(a@)[j]),
        decreases a@.len() - i,
    {
        if !contains_str(b, &a[i]) {
            assert(!strs(b@).contains(strs(a@)[i as int]));
            return false;
        }
        i = i + 1;
    }
    true
}

/// Parent/child linkage recorded with delegation events.
#[derive(Clone, Debug, PartialEq, Eq)]
pub struct LocalDelegationTraceContext {
    pub parent_run_id: RunId,
    pub child_run_id: RunId,
    pub parent_trace_id: Option<TraceEventId>,
    pub request_message_id: Option<MessageId>,
    pub response_message_id: Option<MessageId>,
    pub source_agent_id: AgentId,
    pub target_agent_id: AgentId,
    pub objective: String,
}

/// A structured child-run failure.
#[derive(Clone, Debug, PartialEq, Eq)]
pub struct TaskFailure {
    pub code: String,
    pub message: String,
    pub retryable: bool,
    pub trace_id: Option<TraceEventId>,
}

/// Schema name of task request messages.
pub const TASK_REQUEST_SCHEMA: &'static str = "splendor.task_request.v1";

/// Schema name of task response messages.
pub const TASK_RESPONSE_SCHEMA: &'static str = "splendor.task_response.v1";

/// Lifecycle status of a local run.
#[derive(Clone, Copy, Debug, PartialEq, Eq, Structural)]
pub enum LocalRunStatus {
    Running,
    Completed,
    Failed,
    Cancelled,
    Denied,
}

impl LocalRunStatus {
    pub open spec fn terminal(self) -> bool {
        !(self is Running)
    }

    /// Whether the run has finished: every status but `Running`.
    pub fn is_terminal(self) -> (r: bool)
        ensures
            r == self.terminal(),
    {
        match self {
            LocalRunStatus::Running => false,
            _ => true,
        }
    }
}

/// An agent registered for delegation, with the most authority it may be
/// delegated.
#[derive(Clone, Debug)]
pub struct LocalAgentRegistration {
    pub agent: AgentContext,
    pub authority: DelegatedAuthority,
}

/// A parent or child run known to the manager.
#[derive(Debug)]
pub struct LocalRunRecord {
    pub run_id: RunId,
    pub agent_id: AgentId,
    pub tenant_id: TenantId,
    pub parent_run_id: Option<RunId>,
    pub child_run_ids: Vec<RunId>,
    pub authority: DelegatedAuthority,
    pub objective: Option<String>,
    pub parent_trace_id: Option<TraceEventId>,
    pub status: LocalRunStatus,
    pub request_message_id: Option<MessageId>,
    pub response_message_id: Option<MessageId>,
}

pub open spec fn opt_str(o: Option<String>) -> Option<Seq<char>> {
    match o {
        Some(s) => Some(s@),
        None => None,
    }
}

/// Two authorities grant the same lists.
pub open spec fn same_authority(a: DelegatedAuthority, b: DelegatedAuthority) -> bool {
    &&& strs(a.allowed_actions@) == strs(b.allowed_actions@)
    &&& strs(a.allowed_adapters@) == strs(b.allowed_adapters@)
    &&& strs(a.allowed_permissions@) == strs(b.allowed_permissions@)
}

/// Two run records agree on every field, strings by their text.
pub open spec fn same_record(a: LocalRunRecord, b: LocalRunRecord) -> bool {
    &&& a.run_id == b.run_id
    &&& a.agent_id == b.agent_id
    &&& a.tenant_id == b.tenant_id
    &&& a.parent_run_id == b.parent_run_id
    &&& a.child_run_ids@ == b.child_run_ids@
    &&& same_authority(a.authority, b.authority)
    &&& opt_str(a.objective) == opt_str(b.objective)
    &&& a.parent_trace_id == b.parent_trace_id
    &&& a.status == b.status
    &&& a.request_message_id == b.request_message_id
    &&& a.response_message_id == b.response_message_id
}

fn copy_run_ids(v: &Vec<RunId>) -> (r: Vec<RunId>)
    ensures
        r@ == v@,
{
    let mut out: Vec<RunId> = Vec::new();
    let mut i: usize = 0;
    while i < v.len()
        invariant
            i <= v@.len(),
            out@ == v@.take(i as int),
        decreases v@.len() - i,
    {
        out.push(v[i]);
        i = i + 1;
        assert(out@ =~= v@.take(i as int));
    }
    assert(v@.take(v@.len() as int) =~= v@);
    out
}

fn copy_opt_string(o: &Option<String>) -> (r: Option<String>)
    ensures
        opt_str(r) == opt_str(*o),
{
    match o {
        Some(s) => Some(s.clone()),
        None => None,
    }
}

impl LocalRunRecord {
    /// Copies this record.
    pub fn duplicate(&self) -> (r: LocalRunRecord)
        ensures
            same_record(r, *self),
    {
        LocalRunRecord {
            run_id: self.run_id,
            agent_id: self.agent_id,
            tenant_id: self.tenant_id,
            parent_run_id: self.parent_run_id,
            child_run_ids: copy_run_ids(&self.child_run_ids),
            authority: self.authority.duplicate(),
            objective: copy_opt_string(&self.objective),
            parent_trace_id: self.parent_trace_id,
            status: self.status,
            request_message_id: self.request_message_id,
            response_message_id: self.response_message_id,
        }
    }
}

/// A request to create a child run.
#[derive(Debug)]
pub struct LocalDelegationRequest {
    pub parent_run_id: RunId,
    pub child_run_id: RunId,
    pub source_agent_id: AgentId,
    pub target_agent_id: AgentId,
    pub objective: String,
    pub delegated_authority: DelegatedAuthority,
    pub parent_causal_trace_id: Option<TraceEventId>,
}

impl LocalDelegationRequest {
    /// A request for child run `child_run_id`.
    pub fn new(
        parent_run_id: RunId,
        child_run_id: RunId,
        source_agent_id: AgentId,
        target_agent_id: AgentId,
        objective: String,
        delegated_authority: DelegatedAuthority,
        parent_causal_trace_id: Option<TraceEventId>,
    ) -> (r: LocalDelegationRequest)
        ensures
            r == (LocalDelegationRequest {
                parent_run_id, child_run_id, source_agent_id, target_agent_id, objective, delegated_authority, parent_causal_trace_id,
            }),
    {
        LocalDelegationRequest { parent_run_id, child_run_id, source_agent_id, target_agent_id, objective, delegated_authority, parent_causal_trace_id }
    }

    fn trace_context(&self) -> (r: LocalDelegationTraceContext)
        ensures
            r.parent_run_id == self.parent_run_id,
            r.child_run_id == self.child_run_id,
            r.parent_trace_id == self.parent_causal_trace_id,
            r.request_message_id is None,
            r.response_message_id is None,
            r.source_agent_id == self.source_agent_id,
            r.target_agent_id == self.target_agent_id,
            r.objective@ == self.objective@,
    {
        LocalDelegationTraceContext {
            parent_run_id: self.parent_run_id,
            child_run_id: self.child_run_id,
            parent_trace_id: self.parent_causal_trace_id,
            request_message_id: None,
            response_message_id: None,
            source_agent_id: self.source_agent_id,
            target_agent_id: self.target_agent_id,
            objective: self.objective.clone(),
        }
    }
}

/// A created child run.
#[derive(Debug)]
pub struct LocalChildRun {
    pub run: LocalRunRecord,
    pub child_agent: AgentContext,
    pub request_message: MessageEnvelope,
    pub child_started_trace_id: TraceEventId,
}

/// Outcome status carried by a task response.
#[derive(Clone, Copy, Debug, PartialEq, Eq, Structural)]
pub enum TaskResponseStatus {
    Completed,
    Failed,
    Denied,
    Cancelled,
}

/// A child run's structured answer to its parent.
#[derive(Debug)]
pub struct TaskResponse {
    pub parent_run_id: RunId,
    pub child_run_id: RunId,
    pub status: TaskResponseStatus,
    pub output: Option<Json>,
    pub failure: Option<TaskFailure>,
}

/// A finished child run.
#[derive(Debug)]
pub struct LocalTaskResponse {
    pub response: TaskResponse,
    pub response_message: MessageEnvelope,
    pub parent_trace_id: TraceEventId,
    pub child_trace_id: TraceEventId,
}

/// Why a delegation operation failed.
#[derive(Debug)]
pub enum LocalDelegationError {
    StorageUnavailable,
    UnknownParentRun(RunId),
    UnknownChildRun(RunId),
    DuplicateChildRun(RunId),
    ChildRunAlreadyFinished { child_run_id: RunId, status: LocalRunStatus },
    UnknownAgent(AgentId),
    TraceRunMismatch { runtime_run_id: RunId, delegation_run_id: RunId },
    ParentCancelled(RunId),
    SourceAgentMismatch,
    TenantMismatch,
    DelegatedAuthorityDenied { scope: &'static str },
    Message(MessageValidationError),
    Router(MessageRouterError),
}

/// The description of a delegation failure.
pub open spec fn delegation_error_text(e: LocalDelegationError) -> Seq<char> {
    match e {
        LocalDelegationError::StorageUnavailable => "local delegation storage is unavailable"@,
        LocalDelegationError::UnknownParentRun(id) => "parent run "@ + uuid_text(id.value) + " is not registered"@,
        LocalDelegationError::UnknownChildRun(id) => "child run "@ + uuid_text(id.value) + " is not registered"@,
        LocalDelegationError::DuplicateChildRun(id) => "child run "@ + uuid_text(id.value) + " is already registered"@,
        LocalDelegationError::ChildRunAlreadyFinished { child_run_id, .. } => "child run "@ + uuid_text(child_run_id.value) + " is already finished"@,
        LocalDelegationError::UnknownAgent(id) => "agent "@ + uuid_text(id.value) + " is not registered for local delegation"@,
        LocalDelegationError::TraceRunMismatch { runtime_run_id, delegation_run_id } =>
            "trace recorder run "@ + uuid_text(runtime_run_id.value) + " cannot record delegation run "@ + uuid_text(delegation_run_id.value),
        LocalDelegationError::ParentCancelled(id) => "parent run "@ + uuid_text(id.value) + " is cancelled"@,
        LocalDelegationError::SourceAgentMismatch => "delegation source agent does not own parent run"@,
        LocalDelegationError::TenantMismatch => "target agent tenant does not match parent run tenant"@,
        LocalDelegationError::DelegatedAuthorityDenied { scope } => "delegated authority exceeds "@ + scope@ + " scope"@,
        LocalDelegationError::Message(m) => "message validation failed: "@ + crate::message::validation_text(m),
        LocalDelegationError::Router(r) => "message router failed: "@ + crate::message_router::router_error_text(r),
    }
}

impl LocalDelegationError {
    /// Human-readable description.
    pub fn message(&self) -> (r: String)
        ensures
            r@ == delegation_error_text(*self),
    {
        match self {
            LocalDelegationError::StorageUnavailable => String::from_str("local delegation storage is unavailable"),
            LocalDelegationError::UnknownParentRun(id) =>
                String::from_str("parent run ").concat(uuid_string(id.value).as_str()).concat(" is not registered"),
            LocalDelegationError::UnknownChildRun(id) =>
                String::from_str("child run ").concat(uuid_string(id.value).as_str()).concat(" is not registered"),
            LocalDelegationError::DuplicateChildRun(id) =>
                String::from_str("child run ").concat(uuid_string(id.value).as_str()).concat(" is already registered"),
            LocalDelegationError::ChildRunAlreadyFinished { child_run_id, .. } =>
                String::from_str("child run ").concat(uuid_string(child_run_id.value).as_str()).concat(" is already finished"),
            LocalDelegationError::UnknownAgent(id) =>
                String::from_str("agent ").concat(uuid_string(id.value).as_str()).concat(" is not registered for local delegation"),
            LocalDelegationError::TraceRunMismatch { runtime_run_id, delegation_run_id } =>
                String::from_str("trace recorder run ").concat(uuid_string(runtime_run_id.value).as_str())
                    .concat(" cannot record delegation run ").concat(uuid_string(delegation_run_id.value).as_str()),
            LocalDelegationError::ParentCancelled(id) =>
                String::from_str("parent run ").concat(uuid_string(id.value).as_str()).concat(" is cancelled"),
            LocalDelegationError::SourceAgentMismatch => String::from_str("delegation source agent does not own parent run"),
            LocalDelegationError::TenantMismatch => String::from_str("target agent tenant does not match parent run tenant"),
            LocalDelegationError::DelegatedAuthorityDenied { scope } =>
                String::from_str("delegated authority exceeds ").concat(scope).concat(" scope"),
            LocalDelegationError::Message(e) => String::from_str("message validation failed: ").concat(e.message().as_str()),
            LocalDelegationError::Router(e) => String::from_str("message router failed: ").concat(e.message().as_str()),
        }
    }
}

/// The first admission check a child-run request fails, in the order the
/// manager applies them.
pub enum DelegationCheck {
    ParentRecorderMismatch,
    ChildRecorderMismatch,
    UnknownParent,
    UnknownTarget,
    ParentCancelled,
    DuplicateChild,
    SourceMismatch,
    TenantMismatch,
    ExceedsParent,
    ExceedsTarget,
    Admit,
}

/// `t` is `s` with one more entry at the end.
pub open spec fn one_more<T>(s: Seq<T>, t: Seq<T>) -> bool {
    t.len() == s.len() + 1 && t.drop_last() == s
}

/// A delegation rejection for `req` with `reason` was recorded last.
pub open spec fn rejection_recorded(rec0: Seq<TraceEventKind>, rec1: Seq<TraceEventKind>, req: LocalDelegationRequest, reason: Seq<char>) -> bool {
    &&& one_more(rec0, rec1)
    &&& rec1.last() matches TraceEventKind::DelegationRejected { delegation, reason: rs }
    &&& rs@ == reason
    &&& delegation.parent_run_id == req.parent_run_id
    &&& delegation.child_run_id == req.child_run_id
    &&& delegation.source_agent_id == req.source_agent_id
    &&& delegation.target_agent_id == req.target_agent_id
}

/// A failed recording: the recorder's error came back, the recorder counts
/// one more failure (`f0` to `f1`), and nothing was recorded.
/// Why a task message with these ids would be invalid, if it would: its own
/// id, its source, its target and its run must not be nil (its schema is a
/// task schema, never empty).
pub open spec fn task_message_problem(id: MessageId, source: AgentId, target: AgentId, run: RunId) -> Option<MessageValidationError> {
    if id.value == 0 {
        Some(MessageValidationError::NilMessageId)
    } else if source.value == 0 {
        Some(MessageValidationError::NilSourceAgent)
    } else if target.value == 0 {
        Some(MessageValidationError::NilTargetAgent)
    } else if run.value == 0 {
        Some(MessageValidationError::NilRunId)
    } else {
        None
    }
}

/// `r` is the error of a recording that failed on one of the two recorders
/// (whose failure counts went from `p0` to `p1` and from `c0` to `c1`).
pub open spec fn recording_failed<T>(r: Result<T, LocalDelegationError>, p0: nat, p1: nat, c0: nat, c1: nat) -> bool {
    (r matches Err(LocalDelegationError::Router(MessageRouterError::Trace(_)))) && (p1 > p0 || c1 > c0)
}

/// How a task message that passed every delegation check can end: invalid
/// ids give the validation error; a router refusal gives the router's
/// error; otherwise success; and at any step a failed recording.
pub open spec fn task_message_outcome<T>(
    r: Result<T, LocalDelegationError>,
    problem: Option<MessageValidationError>,
    route: RouteCheck,
    p0: nat,
    p1: nat,
    c0: nat,
    c1: nat,
) -> bool {
    match problem {
        Some(e) => (r matches Err(LocalDelegationError::Message(x)) && x == e) || recording_failed(r, p0, p1, c0, c1),
        None => if route is Route {
            r is Ok || recording_failed(r, p0, p1, c0, c1)
        } else {
            (r matches Err(LocalDelegationError::Router(e)) && !(e is Trace)) || recording_failed(r, p0, p1, c0, c1)
        },
    }
}

pub open spec fn trace_failed<T>(r: Result<T, LocalDelegationError>, rec0: Seq<TraceEventKind>, rec1: Seq<TraceEventKind>, f0: nat, f1: nat) -> bool {
    (r matches Err(LocalDelegationError::Router(MessageRouterError::Trace(_)))) && rec1 == rec0 && f1 > f0
}

/// Local parent/child run admission and trace linkage.
pub struct LocalDelegationManager {
    router: LocalMessageRouter,
    agents: Vec<(AgentId, LocalAgentRegistration)>,
    runs: Vec<(RunId, LocalRunRecord)>,
}

impl LocalDelegationManager {
    pub closed spec fn run_of(&self, id: RunId) -> Option<LocalRunRecord> {
        assoc_get(self.runs@, id)
    }

    pub closed spec fn agent_of(&self, id: AgentId) -> Option<LocalAgentRegistration> {
        assoc_get(self.agents@, id)
    }

    pub closed spec fn routing(&self) -> LocalMessageRouter {
        self.router
    }

    /// The first admission check that `req` fails, for a parent recorder of
    /// `prun` and a child recorder of `crun`.
    pub open spec fn delegation_check(&self, prun: RunId, crun: RunId, req: LocalDelegationRequest) -> DelegationCheck {
        if prun != req.parent_run_id {
            DelegationCheck::ParentRecorderMismatch
        } else if crun != req.child_run_id {
            DelegationCheck::ChildRecorderMismatch
        } else if self.run_of(req.parent_run_id) is None {
            DelegationCheck::UnknownParent
        } else if self.agent_of(req.target_agent_id) is None {
            DelegationCheck::UnknownTarget
        } else {
            let parent = self.run_of(req.parent_run_id).unwrap();
            let target = self.agent_of(req.target_agent_id).unwrap();
            if parent.status == LocalRunStatus::Cancelled {
                DelegationCheck::ParentCancelled
            } else if self.run_of(req.child_run_id) is Some {
                DelegationCheck::DuplicateChild
            } else if parent.agent_id != req.source_agent_id {
                DelegationCheck::SourceMismatch
            } else if parent.tenant_id != target.agent.tenant_id {
                DelegationCheck::TenantMismatch
            } else if !req.delegated_authority.subset_spec(&parent.authority) {
                DelegationCheck::ExceedsParent
            } else if !req.delegated_authority.subset_spec(&target.authority) {
                DelegationCheck::ExceedsTarget
            } else {
                DelegationCheck::Admit
            }
        }
    }

    /// A cancelled parent takes no new child runs, and a child run id is
    /// used once: neither delegation is ever admitted.
    pub proof fn law_no_child_under_cancelled_or_reused(&self, prun: RunId, crun: RunId, req: LocalDelegationRequest)
        requires
            (self.run_of(req.parent_run_id) matches Some(p) && p.status == LocalRunStatus::Cancelled)
                || self.run_of(req.child_run_id) is Some,
        ensures
            !(self.delegation_check(prun, crun, req) is Admit),
    {
    }

    /// Cancelling a parent closes it to delegation: once a cancellation has
    /// taken effect (`after` holds the parent as `before` did, now cancelled,
    /// with the same agents), a delegation under it through recorders of the
    /// right runs, to a known target, meets the cancelled parent first.
    pub proof fn law_cancel_then_delegate(before: Self, after: Self, req: LocalDelegationRequest)
        requires
            before.run_of(req.parent_run_id) is Some,
            after.run_of(req.parent_run_id) == Some(LocalRunRecord {
                status: LocalRunStatus::Cancelled,
                ..before.run_of(req.parent_run_id).unwrap()
            }),
            forall|q: AgentId| #[trigger] after.agent_of(q) == before.agent_of(q),
            before.agent_of(req.target_agent_id) is Some,
        ensures
            after.delegation_check(req.parent_run_id, req.child_run_id, req) is ParentCancelled,
    {
        assert(after.agent_of(req.target_agent_id) == before.agent_of(req.target_agent_id));
    }

    /// A manager with no agents and no runs.
    pub fn new() -> (r: LocalDelegationManager)
        ensures
            forall|id: RunId| #[trigger] r.run_of(id) is None,
            forall|id: AgentId| #[trigger] r.agent_of(id) is None,
            forall|id: AgentId| !#[trigger] r.routing().registered(id),
            r.routing().limits() == crate::message_router::MessageRouterConfig::standard_spec(),
    {
        let r = LocalDelegationManager { router: LocalMessageRouter::new(), agents: Vec::new(), runs: Vec::new() };
        proof {
            assert forall|id: RunId| #[trigger] r.run_of(id) is None by { lemma_assoc_absent(r.runs@, id); }
            assert forall|id: AgentId| #[trigger] r.agent_of(id) is None by { lemma_assoc_absent(r.agents@, id); }
        }
        r
    }

    /// The router that carries task messages.
    pub fn router(&self) -> (r: &LocalMessageRouter)
        ensures
            *r == self.routing(),
    {
        &self.router
    }

    fn find_run(&self, id: &RunId) -> (r: Option<usize>)
        ensures
            r matches Some(i) ==> is_last_index(self.runs@, *id, i as int) && self.run_of(*id) == Some(self.runs@[i as int].1),
            r is None ==> self.run_of(*id) is None,
    {
        let mut i: usize = self.runs.len();
        while i > 0
            invariant
                i <= self.runs@.len(),
                forall|j: int| i <= j < self.runs@.len() ==> #[trigger] self.runs@[j].0 != *id,
            decreases i,
        {
            i = i - 1;
            if self.runs[i].0 == *id {
                proof { lemma_assoc_last(self.runs@, *id, i as int); }
                return Some(i);
            }
        }
        proof { lemma_assoc_absent(self.runs@, *id); }
        None
    }

    fn find_agent(&self, id: &AgentId) -> (r: Option<usize>)
        ensures
            r matches Some(i) ==> is_last_index(self.agents@, *id, i as int) && self.agent_of(*id) == Some(self.agents@[i as int].1),
            r is None ==> self.agent_of(*id) is None,
    {
        let mut i: usize = self.agents.len();
        while i > 0
            invariant
                i <= self.agents@.len(),
                forall|j: int| i <= j < self.agents@.len() ==> #[trigger] self.agents@[j].0 != *id,
            decreases i,
        {
            i = i - 1;
            if self.agents[i].0 == *id {
                proof { lemma_assoc_last(self.agents@, *id, i as int); }
                return Some(i);
            }
        }
        proof { lemma_assoc_absent(self.agents@, *id); }
        None
    }

    fn put_run(&mut self, id: RunId, record: LocalRunRecord)
        ensures
            final(self).run_of(id) == Some(record),
            forall|q: RunId| q != id ==> #[trigger] final(self).run_of(q) == old(self).run_of(q),
            forall|q: AgentId| #[trigger] final(self).agent_of(q) == old(self).agent_of(q),
            final(self).routing() == old(self).routing(),
    {
        let ghost before = self.runs@;
        let ghost g = record;
        match self.find_run(&id) {
            Some(i) => {
                self.runs.set(i, (id, record));
                proof {
                    assert forall|q: RunId| #[trigger] assoc_get(self.runs@, q) == if q == id { Some(g) } else { assoc_get(before, q) } by {
                        lemma_assoc_update(before, id, i as int, g, q);
                    }
                }
            },
            None => {
                self.runs.push((id, record));
                proof {
                    assert forall|q: RunId| #[trigger] assoc_get(self.runs@, q) == if q == id { Some(g) } else { assoc_get(before, q) } by {
                        lemma_assoc_push(before, id, g, q);
                    }
                }
            },
        }
    }

    /// Registers `agent` with the most authority it may be delegated; a
    /// registration for the same agent is replaced.
    pub fn register_agent(&mut self, agent: AgentContext, authority: DelegatedAuthority) -> (r: Result<(), LocalDelegationError>)
        ensures
            r is Ok,
            final(self).agent_of(agent.agent_id) == Some(LocalAgentRegistration { agent, authority }),
            forall|q: AgentId| q != agent.agent_id ==> #[trigger] final(self).agent_of(q) == old(self).agent_of(q),
            forall|q: RunId| #[trigger] final(self).run_of(q) == old(self).run_of(q),
            final(self).routing().registered(agent.agent_id),
    {
        let _ = self.router.register_agent_context(&agent);
        let id = agent.agent_id;
        let reg = LocalAgentRegistration { agent, authority };
        let ghost before = self.agents@;
        let ghost g = reg;
        match self.find_agent(&id) {
            Some(i) => {
                self.agents.set(i, (id, reg));
                proof {
                    assert forall|q: AgentId| #[trigger] assoc_get(self.agents@, q) == if q == id { Some(g) } else { assoc_get(before, q) } by {
                        lemma_assoc_update(before, id, i as int, g, q);
                    }
                }
            },
            None => {
                self.agents.push((id, reg));
                proof {
                    assert forall|q: AgentId| #[trigger] assoc_get(self.agents@, q) == if q == id { Some(g) } else { assoc_get(before, q) } by {
                        lemma_assoc_push(before, id, g, q);
                    }
                }
            },
        }
        Ok(())
    }

    /// Registers a running root run owned by a registered agent, with that
    /// agent's full authority.
    pub fn register_root_run(&mut self, run_id: RunId, agent_id: AgentId) -> (r: Result<LocalRunRecord, LocalDelegationError>)
        ensures
            old(self).agent_of(agent_id) is None ==> (r matches Err(LocalDelegationError::UnknownAgent(a)) && a == agent_id)
                && forall|q: RunId| #[trigger] final(self).run_of(q) == old(self).run_of(q),
            old(self).agent_of(agent_id) matches Some(reg) ==> (r matches Ok(rec) && {
                let stored = final(self).run_of(run_id).unwrap();
                &&& final(self).run_of(run_id) is Some
                &&& same_record(rec, stored)
                &&& stored.run_id == run_id
                &&& stored.agent_id == reg.agent.agent_id
                &&& stored.tenant_id == reg.agent.tenant_id
                &&& stored.parent_run_id is None
                &&& stored.child_run_ids@.len() == 0
                &&& same_authority(stored.authority, reg.authority)
                &&& stored.objective is None
                &&& stored.parent_trace_id is None
                &&& stored.status == LocalRunStatus::Running
                &&& stored.request_message_id is None
                &&& stored.response_message_id is None
            }) && forall|q: RunId| q != run_id ==> #[trigger] final(self).run_of(q) == old(self).run_of(q),
            forall|q: AgentId| #[trigger] final(self).agent_of(q) == old(self).agent_of(q),
            final(self).routing() == old(self).routing(),
    {
        let i = match self.find_agent(&agent_id) {
            None => return Err(LocalDelegationError::UnknownAgent(agent_id)),
            Some(i) => i,
        };
        let record = LocalRunRecord {
            run_id,
            agent_id: self.agents[i].1.agent.agent_id,
            tenant_id: self.agents[i].1.agent.tenant_id,
            parent_run_id: None,
            child_run_ids: Vec::new(),
            authority: self.agents[i].1.authority.duplicate(),
            objective: None,
            parent_trace_id: None,
            status: LocalRunStatus::Running,
            request_message_id: None,
            response_message_id: None,
        };
        let copy = record.duplicate();
        self.put_run(run_id, record);
        Ok(copy)
    }

    /// A copy of a run's record.
    pub fn run(&self, run_id: &RunId) -> (r: Result<LocalRunRecord, LocalDelegationError>)
        ensures
            self.run_of(*run_id) is None ==> (r matches Err(LocalDelegationError::UnknownChildRun(id)) && id == *run_id),
            self.run_of(*run_id) matches Some(rec) ==> (r matches Ok(c) && same_record(c, rec)),
    {
        match self.find_run(run_id) {
            None => Err(LocalDelegationError::UnknownChildRun(*run_id)),
            Some(i) => Ok(self.runs[i].1.duplicate()),
        }
    }

    /// Cancels a parent run and records the cancellation. The status changes
    /// even when the recording then fails.
    pub fn cancel_parent_run<P: MessageTraceRecorder>(&mut self, parent_recorder: &mut P, parent_run_id: &RunId, reason: String)
        -> (r: Result<TraceEventId, LocalDelegationError>)
        ensures
            final(parent_recorder).recorder_run() == old(parent_recorder).recorder_run(),
            forall|q: AgentId| #[trigger] final(self).agent_of(q) == old(self).agent_of(q),
            final(self).routing() == old(self).routing(),
            old(parent_recorder).recorder_run() != *parent_run_id ==> (r matches Err(LocalDelegationError::TraceRunMismatch { runtime_run_id, delegation_run_id })
                && runtime_run_id == old(parent_recorder).recorder_run() && delegation_run_id == *parent_run_id)
                && forall|q: RunId| #[trigger] final(self).run_of(q) == old(self).run_of(q),
            old(parent_recorder).recorder_run() == *parent_run_id && old(self).run_of(*parent_run_id) is None
                ==> (r matches Err(LocalDelegationError::UnknownParentRun(id)) && id == *parent_run_id)
                && forall|q: RunId| #[trigger] final(self).run_of(q) == old(self).run_of(q),
            old(parent_recorder).recorder_run() == *parent_run_id && old(self).run_of(*parent_run_id) is Some ==> {
                let p = old(self).run_of(*parent_run_id).unwrap();
                &&& final(self).run_of(*parent_run_id) == Some(LocalRunRecord { status: LocalRunStatus::Cancelled, ..p })
                &&& forall|q: RunId| q != *parent_run_id ==> #[trigger] final(self).run_of(q) == old(self).run_of(q)
                &&& (r is Ok ==> one_more(old(parent_recorder).recorded(), final(parent_recorder).recorded())
                    && (final(parent_recorder).recorded().last() matches TraceEventKind::ParentRunCancelled { parent_run_id: pr, agent_id, reason: rs }
                        && pr == *parent_run_id && agent_id == p.agent_id && rs@ == reason@))
                &&& (r is Err ==> trace_failed(r, old(parent_recorder).recorded(), final(parent_recorder).recorded(), old(parent_recorder).failed_records(), final(parent_recorder).failed_records()))
            },
    {
        let rr = parent_recorder.run_id();
        if rr != *parent_run_id {
            return Err(LocalDelegationError::TraceRunMismatch { runtime_run_id: rr, delegation_run_id: *parent_run_id });
        }
        let i = match self.find_run(parent_run_id) {
            None => return Err(LocalDelegationError::UnknownParentRun(*parent_run_id)),
            Some(i) => i,
        };
        let ghost before = self.runs@;
        self.runs[i].1.status = LocalRunStatus::Cancelled;
        let agent_id = self.runs[i].1.agent_id;
        proof {
            let g = self.runs@[i as int].1;
            assert(self.runs@ == before.update(i as int, (*parent_run_id, g)));
            assert forall|q: RunId| #[trigger] assoc_get(self.runs@, q) == if q == *parent_run_id { Some(g) } else { assoc_get(before, q) } by {
                lemma_assoc_update(before, *parent_run_id, i as int, g, q);
            }
        }
        let ghost rs = reason@;
        match parent_recorder.record_message_event(TraceEventKind::ParentRunCancelled { parent_run_id: *parent_run_id, agent_id, reason }) {
            Ok(id) => {
                assert(final(parent_recorder).recorded().drop_last() =~= old(parent_recorder).recorded());
                Ok(id)
            },
            Err(e) => Err(LocalDelegationError::Router(MessageRouterError::Trace(e))),
        }
    }
}

/// How a delegated authority is written in a task request.
pub open spec fn authority_json_of(j: Json, a: DelegatedAuthority) -> bool {
    &&& j is Object
    &&& json_get(j, "allowed_actions"@) matches Some(x) && text_array(x, a.allowed_actions@)
    &&& json_get(j, "allowed_adapters"@) matches Some(x) && text_array(x, a.allowed_adapters@)
    &&& json_get(j, "allowed_permissions"@) matches Some(x) && text_array(x, a.allowed_permissions@)
}

fn authority_json(a: &DelegatedAuthority) -> (r: Json)
    ensures
        authority_json_of(r, *a),
{
    proof {
        reveal_strlit("allowed_actions");
        reveal_strlit("allowed_adapters");
        reveal_strlit("allowed_permissions");
        assert("allowed_actions"@.len() != "allowed_adapters"@.len());
        assert("allowed_actions"@.len() != "allowed_permissions"@.len());
        assert("allowed_adapters"@.len() != "allowed_permissions"@.len());
    }
    let mut o = Json::object();
    o.insert(String::from_str("allowed_actions"), Json::string_array(&a.allowed_actions));
    let ghost o_1 = o;
    o.insert(String::from_str("allowed_adapters"), Json::string_array(&a.allowed_adapters));
    assert(json_get(o, "allowed_actions"@) == json_get(o_1, "allowed_actions"@));
    let ghost o_2 = o;
    o.insert(String::from_str("allowed_permissions"), Json::string_array(&a.allowed_permissions));
    assert(json_get(o, "allowed_actions"@) == json_get(o_2, "allowed_actions"@));
    assert(json_get(o, "allowed_adapters"@) == json_get(o_2, "allowed_adapters"@));
    o
}

/// The task request payload sent to a child run.
/// The task request sent to a child run: the two runs and the target agent
/// as hex text, the objective and the delegated authority.
pub open spec fn task_request_json_of(j: Json, req: LocalDelegationRequest) -> bool {
    &&& j is Object
    &&& json_get(j, "parent_run_id"@) matches Some(x) && json_str(x) == Some(uuid_text(req.parent_run_id.value))
    &&& json_get(j, "child_run_id"@) matches Some(x) && json_str(x) == Some(uuid_text(req.child_run_id.value))
    &&& json_get(j, "target_agent_id"@) matches Some(x) && json_str(x) == Some(uuid_text(req.target_agent_id.value))
    &&& json_get(j, "objective"@) matches Some(x) && json_str(x) == Some(req.objective@)
    &&& json_get(j, "delegated_authority"@) matches Some(x) && authority_json_of(x, req.delegated_authority)
}

fn task_request_payload(req: &LocalDelegationRequest) -> (r: Json)
    ensures
        task_request_json_of(r, *req),
{
    proof {
        reveal_strlit("parent_run_id");
        reveal_strlit("child_run_id");
        reveal_strlit("target_agent_id");
        reveal_strlit("objective");
        reveal_strlit("delegated_authority");
        assert("parent_run_id"@.len() != "child_run_id"@.len());
        assert("parent_run_id"@.len() != "target_agent_id"@.len());
        assert("parent_run_id"@.len() != "objective"@.len());
        assert("parent_run_id"@.len() != "delegated_authority"@.len());
        assert("child_run_id"@.len() != "target_agent_id"@.len());
        assert("child_run_id"@.len() != "objective"@.len());
        assert("child_run_id"@.len() != "delegated_authority"@.len());
        assert("target_agent_id"@.len() != "objective"@.len());
        assert("target_agent_id"@.len() != "delegated_authority"@.len());
        assert("objective"@.len() != "delegated_authority"@.len());
    }
    let mut o = Json::object();
    o.insert(String::from_str("parent_run_id"), Json::Str(uuid_string(req.parent_run_id.value)));
    let ghost o_1 = o;
    o.insert(String::from_str("child_run_id"), Json::Str(uuid_string(req.child_run_id.value)));
    assert(json_get(o, "parent_run_id"@) == json_get(o_1, "parent_run_id"@));
    let ghost o_2 = o;
    o.insert(String::from_str("target_agent_id"), Json::Str(uuid_string(req.target_agent_id.value)));
    assert(json_get(o, "parent_run_id"@) == json_get(o_2, "parent_run_id"@));
    assert(json_get(o, "child_run_id"@) == json_get(o_2, "child_run_id"@));
    let ghost o_3 = o;
    o.insert(String::from_str("objective"), Json::string(&req.objective));
    assert(json_get(o, "parent_run_id"@) == json_get(o_3, "parent_run_id"@));
    assert(json_get(o, "child_run_id"@) == json_get(o_3, "child_run_id"@));
    assert(json_get(o, "target_agent_id"@) == json_get(o_3, "target_agent_id"@));
    let ghost o_4 = o;
    o.insert(String::from_str("delegated_authority"), authority_json(&req.delegated_authority));
    assert(json_get(o, "parent_run_id"@) == json_get(o_4, "parent_run_id"@));
    assert(json_get(o, "child_run_id"@) == json_get(o_4, "child_run_id"@));
    assert(json_get(o, "target_agent_id"@) == json_get(o_4, "target_agent_id"@));
    assert(json_get(o, "objective"@) == json_get(o_4, "objective"@));
    o
}

fn record_delegation_rejection<P: MessageTraceRecorder>(recorder: &mut P, req: &LocalDelegationRequest, reason: &str)
    -> (r: Result<(), LocalDelegationError>)
    ensures
        final(recorder).recorder_run() == old(recorder).recorder_run(),
        r is Ok ==> rejection_recorded(old(recorder).recorded(), final(recorder).recorded(), *req, reason@),
        r is Err ==> trace_failed(r, old(recorder).recorded(), final(recorder).recorded(), old(recorder).failed_records(), final(recorder).failed_records()),
        r is Ok ==> final(recorder).failed_records() == old(recorder).failed_records(),
        final(recorder).failed_records() >= old(recorder).failed_records(),
{
    let ctx = req.trace_context();
    match recorder.record_message_event(TraceEventKind::DelegationRejected { delegation: ctx, reason: String::from_str(reason) }) {
        Ok(_) => {
            assert(final(recorder).recorded().drop_last() =~= old(recorder).recorded());
            Ok(())
        },
        Err(e) => Err(LocalDelegationError::Router(MessageRouterError::Trace(e))),
    }
}

impl LocalDelegationManager {
    /// Creates a child run from an explicit target, objective and delegated
    /// authority.
    ///
    /// The parent and child recorders must record the parent and child runs.
    /// The parent run and the target agent must be known. A cancelled parent,
    /// a child run id already in use, a source agent that does not own the
    /// parent run, a target of another tenant, and an authority beyond the
    /// parent's or the target's are refused; the refusals other than the
    /// ownership and tenant checks are recorded on the parent's trace. An
    /// admitted request is recorded as requested, its task request message
    /// (id `request_message_id`) is routed from source to target, the child
    /// run is recorded as started, and the child run is registered as
    /// running under the delegated authority and linked to its parent.
    #[verifier::rlimit(40)]
    pub fn create_child_run<P: MessageTraceRecorder, C: MessageTraceRecorder>(
        &mut self,
        parent_recorder: &mut P,
        child_recorder: &mut C,
        request: LocalDelegationRequest,
        request_message_id: MessageId,
    ) -> (r: Result<LocalChildRun, LocalDelegationError>)
        ensures
            final(parent_recorder).recorder_run() == old(parent_recorder).recorder_run(),
            final(child_recorder).recorder_run() == old(child_recorder).recorder_run(),
            forall|q: AgentId| #[trigger] final(self).agent_of(q) == old(self).agent_of(q),
            r is Ok ==> old(self).delegation_check(old(parent_recorder).recorder_run(), old(child_recorder).recorder_run(), request) is Admit,
            r is Err ==> forall|q: RunId| #[trigger] final(self).run_of(q) == old(self).run_of(q),
            // A refused delegation records nothing on the child's trace and routes no message.
            !(old(self).delegation_check(old(parent_recorder).recorder_run(), old(child_recorder).recorder_run(), request) is Admit)
                ==> final(child_recorder).recorded() == old(child_recorder).recorded()
                    && final(self).routing() == old(self).routing(),
            match old(self).delegation_check(old(parent_recorder).recorder_run(), old(child_recorder).recorder_run(), request) {
                DelegationCheck::ParentRecorderMismatch =>
                    r matches Err(LocalDelegationError::TraceRunMismatch { runtime_run_id, delegation_run_id })
                        && runtime_run_id == old(parent_recorder).recorder_run() && delegation_run_id == request.parent_run_id,
                DelegationCheck::ChildRecorderMismatch =>
                    r matches Err(LocalDelegationError::TraceRunMismatch { runtime_run_id, delegation_run_id })
                        && runtime_run_id == old(child_recorder).recorder_run() && delegation_run_id == request.child_run_id,
                DelegationCheck::UnknownParent => r matches Err(LocalDelegationError::UnknownParentRun(id)) && id == request.parent_run_id,
                DelegationCheck::UnknownTarget => r matches Err(LocalDelegationError::UnknownAgent(id)) && id == request.target_agent_id,
                DelegationCheck::ParentCancelled =>
                    (r matches Err(LocalDelegationError::ParentCancelled(id)) && id == request.parent_run_id
                        && rejection_recorded(old(parent_recorder).recorded(), final(parent_recorder).recorded(), request, "parent_run_cancelled"@))
                    || trace_failed(r, old(parent_recorder).recorded(), final(parent_recorder).recorded(), old(parent_recorder).failed_records(), final(parent_recorder).failed_records()),
                DelegationCheck::DuplicateChild =>
                    (r matches Err(LocalDelegationError::DuplicateChildRun(id)) && id == request.child_run_id
                        && rejection_recorded(old(parent_recorder).recorded(), final(parent_recorder).recorded(), request, "duplicate_child_run_id"@))
                    || trace_failed(r, old(parent_recorder).recorded(), final(parent_recorder).recorded(), old(parent_recorder).failed_records(), final(parent_recorder).failed_records()),
                DelegationCheck::SourceMismatch =>
                    (r matches Err(LocalDelegationError::SourceAgentMismatch))
                        && final(parent_recorder).recorded() == old(parent_recorder).recorded(),
                DelegationCheck::TenantMismatch =>
                    (r matches Err(LocalDelegationError::TenantMismatch))
                        && final(parent_recorder).recorded() == old(parent_recorder).recorded(),
                DelegationCheck::ExceedsParent =>
                    (r matches Err(LocalDelegationError::DelegatedAuthorityDenied { scope }) && scope@ == "parent"@
                        && rejection_recorded(old(parent_recorder).recorded(), final(parent_recorder).recorded(), request,
                            "delegated_authority_exceeds_parent_scope"@))
                    || trace_failed(r, old(parent_recorder).recorded(), final(parent_recorder).recorded(), old(parent_recorder).failed_records(), final(parent_recorder).failed_records()),
                DelegationCheck::ExceedsTarget =>
                    (r matches Err(LocalDelegationError::DelegatedAuthorityDenied { scope }) && scope@ == "target"@
                        && rejection_recorded(old(parent_recorder).recorded(), final(parent_recorder).recorded(), request,
                            "delegated_authority_exceeds_target_scope"@))
                    || trace_failed(r, old(parent_recorder).recorded(), final(parent_recorder).recorded(), old(parent_recorder).failed_records(), final(parent_recorder).failed_records()),
                DelegationCheck::Admit => true,
            },
            r matches Ok(child) ==> {
                let parent = old(self).run_of(request.parent_run_id).unwrap();
                let target = old(self).agent_of(request.target_agent_id).unwrap();
                let rec = final(self).run_of(request.child_run_id).unwrap();
                let p2 = final(self).run_of(request.parent_run_id).unwrap();
                &&& final(self).run_of(request.child_run_id) is Some
                &&& same_record(child.run, rec)
                &&& rec.run_id == request.child_run_id
                &&& rec.agent_id == request.target_agent_id
                &&& rec.tenant_id == parent.tenant_id
                &&& rec.parent_run_id == Some(request.parent_run_id)
                &&& rec.child_run_ids@.len() == 0
                &&& rec.authority == request.delegated_authority
                &&& rec.objective == Some(request.objective)
                &&& rec.parent_trace_id is Some
                &&& rec.status == LocalRunStatus::Running
                &&& rec.request_message_id == Some(request_message_id)
                &&& rec.response_message_id is None
                &&& final(self).run_of(request.parent_run_id) is Some
                &&& p2 == LocalRunRecord { child_run_ids: p2.child_run_ids, ..parent }
                &&& p2.child_run_ids@ == parent.child_run_ids@.push(request.child_run_id)
                &&& forall|q: RunId| q != request.parent_run_id && q != request.child_run_id
                        ==> #[trigger] final(self).run_of(q) == old(self).run_of(q)
                &&& child.child_agent.agent_id == target.agent.agent_id
                &&& child.child_agent.tenant_id == target.agent.tenant_id
                &&& child.child_agent.delegated_authority matches Some(a) && same_authority(a, request.delegated_authority)
                &&& child.request_message.message.message_id == request_message_id
                &&& child.request_message.message.source_agent_id == request.source_agent_id
                &&& child.request_message.message.target_agent_id == request.target_agent_id
                &&& child.request_message.message.run_id == request.parent_run_id
                &&& child.request_message.message.schema@ == TASK_REQUEST_SCHEMA@
                &&& child.request_message.message.requires_response
                &&& child.request_message.delivery_status == MessageDeliveryStatus::Delivered
                &&& child.child_started_trace_id.run_id == request.child_run_id
                &&& one_more(old(child_recorder).recorded(), final(child_recorder).recorded())
                &&& final(child_recorder).recorded().last() matches TraceEventKind::ChildRunStarted { delegation }
                        && delegation.parent_run_id == request.parent_run_id
                        && delegation.child_run_id == request.child_run_id
                        && delegation.request_message_id == Some(request_message_id)
                // The parent trace gains the request, then the routed message's
                // queued and delivered events.
                &&& final(parent_recorder).recorded().len() == old(parent_recorder).recorded().len() + 3
                &&& final(parent_recorder).recorded().take(old(parent_recorder).recorded().len() as int) == old(parent_recorder).recorded()
                &&& final(parent_recorder).recorded()[old(parent_recorder).recorded().len() as int]
                        matches TraceEventKind::DelegationRequested { delegation }
                        && delegation.parent_run_id == request.parent_run_id && delegation.child_run_id == request.child_run_id
                        && delegation.source_agent_id == request.source_agent_id && delegation.target_agent_id == request.target_agent_id
                &&& final(parent_recorder).recorded()[old(parent_recorder).recorded().len() as int + 1]
                        matches TraceEventKind::MessageQueued { message } && message.message_id == request_message_id
                &&& final(parent_recorder).recorded()[old(parent_recorder).recorded().len() as int + 2]
                        matches TraceEventKind::MessageDelivered { message } && message.message_id == request_message_id
                &&& final(parent_recorder).failed_records() == old(parent_recorder).failed_records()
                &&& final(child_recorder).failed_records() == old(child_recorder).failed_records()
            },
            // Failures never decrease; an admitted request fails only when a
            // recording failed, the message is invalid, or the router refuses it.
            final(parent_recorder).failed_records() >= old(parent_recorder).failed_records(),
            final(child_recorder).failed_records() >= old(child_recorder).failed_records(),
            old(self).delegation_check(old(parent_recorder).recorder_run(), old(child_recorder).recorder_run(), request) is Admit
                ==> task_message_outcome(r,
                    task_message_problem(request_message_id, request.source_agent_id, request.target_agent_id, request.parent_run_id),
                    old(self).routing().fresh_route_check(request.source_agent_id, request.target_agent_id),
                    old(parent_recorder).failed_records(), final(parent_recorder).failed_records(),
                    old(child_recorder).failed_records(), final(child_recorder).failed_records()),
    {
        let now = now_utc();
        self.create_child_run_at(parent_recorder, child_recorder, request, request_message_id, now)
    }

    /// The same, at time `now`: the routed message is created and sent at `now`.
    #[verifier::rlimit(40)]
    pub fn create_child_run_at<P: MessageTraceRecorder, C: MessageTraceRecorder>(
        &mut self,
        parent_recorder: &mut P,
        child_recorder: &mut C,
        request: LocalDelegationRequest,
        request_message_id: MessageId,
        now: crate::clock::Timestamp,
    ) -> (r: Result<LocalChildRun, LocalDelegationError>)
        ensures
            r matches Ok(child) ==> child.request_message.message.created_at == now,
            final(parent_recorder).recorder_run() == old(parent_recorder).recorder_run(),
            final(child_recorder).recorder_run() == old(child_recorder).recorder_run(),
            forall|q: AgentId| #[trigger] final(self).agent_of(q) == old(self).agent_of(q),
            r is Ok ==> old(self).delegation_check(old(parent_recorder).recorder_run(), old(child_recorder).recorder_run(), request) is Admit,
            r is Err ==> forall|q: RunId| #[trigger] final(self).run_of(q) == old(self).run_of(q),
            // A refused delegation records nothing on the child's trace and routes no message.
            !(old(self).delegation_check(old(parent_recorder).recorder_run(), old(child_recorder).recorder_run(), request) is Admit)
                ==> final(child_recorder).recorded() == old(child_recorder).recorded()
                    && final(self).routing() == old(self).routing(),
            match old(self).delegation_check(old(parent_recorder).recorder_run(), old(child_recorder).recorder_run(), request) {
                DelegationCheck::ParentRecorderMismatch =>
                    r matches Err(LocalDelegationError::TraceRunMismatch { runtime_run_id, delegation_run_id })
                        && runtime_run_id == old(parent_recorder).recorder_run() && delegation_run_id == request.parent_run_id,
                DelegationCheck::ChildRecorderMismatch =>
                    r matches Err(LocalDelegationError::TraceRunMismatch { runtime_run_id, delegation_run_id })
                        && runtime_run_id == old(child_recorder).recorder_run() && delegation_run_id == request.child_run_id,
                DelegationCheck::UnknownParent => r matches Err(LocalDelegationError::UnknownParentRun(id)) && id == request.parent_run_id,
                DelegationCheck::UnknownTarget => r matches Err(LocalDelegationError::UnknownAgent(id)) && id == request.target_agent_id,
                DelegationCheck::ParentCancelled =>
                    (r matches Err(LocalDelegationError::ParentCancelled(id)) && id == request.parent_run_id
                        && rejection_recorded(old(parent_recorder).recorded(), final(parent_recorder).recorded(), request, "parent_run_cancelled"@))
                    || trace_failed(r, old(parent_recorder).recorded(), final(parent_recorder).recorded(), old(parent_recorder).failed_records(), final(parent_recorder).failed_records()),
                DelegationCheck::DuplicateChild =>
                    (r matches Err(LocalDelegationError::DuplicateChildRun(id)) && id == request.child_run_id
                        && rejection_recorded(old(parent_recorder).recorded(), final(parent_recorder).recorded(), request, "duplicate_child_run_id"@))
                    || trace_failed(r, old(parent_recorder).recorded(), final(parent_recorder).recorded(), old(parent_recorder).failed_records(), final(parent_recorder).failed_records()),
                DelegationCheck::SourceMismatch =>
                    (r matches Err(LocalDelegationError::SourceAgentMismatch))
                        && final(parent_recorder).recorded() == old(parent_recorder).recorded(),
                DelegationCheck::TenantMismatch =>
                    (r matches Err(LocalDelegationError::TenantMismatch))
                        && final(parent_recorder).recorded() == old(parent_recorder).recorded(),
                DelegationCheck::ExceedsParent =>
                    (r matches Err(LocalDelegationError::DelegatedAuthorityDenied { scope }) && scope@ == "parent"@
                        && rejection_recorded(old(parent_recorder).recorded(), final(parent_recorder).recorded(), request,
                            "delegated_authority_exceeds_parent_scope"@))
                    || trace_failed(r, old(parent_recorder).recorded(), final(parent_recorder).recorded(), old(parent_recorder).failed_records(), final(parent_recorder).failed_records()),
                DelegationCheck::ExceedsTarget =>
                    (r matches Err(LocalDelegationError::DelegatedAuthorityDenied { scope }) && scope@ == "target"@
                        && rejection_recorded(old(parent_recorder).recorded(), final(parent_recorder).recorded(), request,
                            "delegated_authority_exceeds_target_scope"@))
                    || trace_failed(r, old(parent_recorder).recorded(), final(parent_recorder).recorded(), old(parent_recorder).failed_records(), final(parent_recorder).failed_records()),
                DelegationCheck::Admit => true,
            },
            r matches Ok(child) ==> {
                let parent = old(self).run_of(request.parent_run_id).unwrap();
                let target = old(self).agent_of(request.target_agent_id).unwrap();
                let rec = final(self).run_of(request.child_run_id).unwrap();
                let p2 = final(self).run_of(request.parent_run_id).unwrap();
                &&& final(self).run_of(request.child_run_id) is Some
                &&& same_record(child.run, rec)
                &&& rec.run_id == request.child_run_id
                &&& rec.agent_id == request.target_agent_id
                &&& rec.tenant_id == parent.tenant_id
                &&& rec.parent_run_id == Some(request.parent_run_id)
                &&& rec.child_run_ids@.len() == 0
                &&& rec.authority == request.delegated_authority
                &&& rec.objective == Some(request.objective)
                &&& rec.parent_trace_id is Some
                &&& rec.status == LocalRunStatus::Running
                &&& rec.request_message_id == Some(request_message_id)
                &&& rec.response_message_id is None
                &&& final(self).run_of(request.parent_run_id) is Some
                &&& p2 == LocalRunRecord { child_run_ids: p2.child_run_ids, ..parent }
                &&& p2.child_run_ids@ == parent.child_run_ids@.push(request.child_run_id)
                &&& forall|q: RunId| q != request.parent_run_id && q != request.child_run_id
                        ==> #[trigger] final(self).run_of(q) == old(self).run_of(q)
                &&& child.child_agent.agent_id == target.agent.agent_id
                &&& child.child_agent.tenant_id == target.agent.tenant_id
                &&& child.child_agent.delegated_authority matches Some(a) && same_authority(a, request.delegated_authority)
                &&& child.request_message.message.message_id == request_message_id
                &&& child.request_message.message.source_agent_id == request.source_agent_id
                &&& child.request_message.message.target_agent_id == request.target_agent_id
                &&& child.request_message.message.run_id == request.parent_run_id
                &&& child.request_message.message.schema@ == TASK_REQUEST_SCHEMA@
                &&& child.request_message.message.requires_response
                &&& child.request_message.delivery_status == MessageDeliveryStatus::Delivered
                &&& child.child_started_trace_id.run_id == request.child_run_id
                &&& one_more(old(child_recorder).recorded(), final(child_recorder).recorded())
                &&& final(child_recorder).recorded().last() matches TraceEventKind::ChildRunStarted { delegation }
                        && delegation.parent_run_id == request.parent_run_id
                        && delegation.child_run_id == request.child_run_id
                        && delegation.request_message_id == Some(request_message_id)
                // The parent trace gains the request, then the routed message's
                // queued and delivered events.
                &&& final(parent_recorder).recorded().len() == old(parent_recorder).recorded().len() + 3
                &&& final(parent_recorder).recorded().take(old(parent_recorder).recorded().len() as int) == old(parent_recorder).recorded()
                &&& final(parent_recorder).recorded()[old(parent_recorder).recorded().len() as int]
                        matches TraceEventKind::DelegationRequested { delegation }
                        && delegation.parent_run_id == request.parent_run_id && delegation.child_run_id == request.child_run_id
                        && delegation.source_agent_id == request.source_agent_id && delegation.target_agent_id == request.target_agent_id
                &&& final(parent_recorder).recorded()[old(parent_recorder).recorded().len() as int + 1]
                        matches TraceEventKind::MessageQueued { message } && message.message_id == request_message_id
                &&& final(parent_recorder).recorded()[old(parent_recorder).recorded().len() as int + 2]
                        matches TraceEventKind::MessageDelivered { message } && message.message_id == request_message_id
                &&& final(parent_recorder).failed_records() == old(parent_recorder).failed_records()
                &&& final(child_recorder).failed_records() == old(child_recorder).failed_records()
            },
            // Failures never decrease; an admitted request fails only when a
            // recording failed, the message is invalid, or the router refuses it.
            final(parent_recorder).failed_records() >= old(parent_recorder).failed_records(),
            final(child_recorder).failed_records() >= old(child_recorder).failed_records(),
            old(self).delegation_check(old(parent_recorder).recorder_run(), old(child_recorder).recorder_run(), request) is Admit
                ==> task_message_outcome(r,
                    task_message_problem(request_message_id, request.source_agent_id, request.target_agent_id, request.parent_run_id),
                    old(self).routing().fresh_route_check(request.source_agent_id, request.target_agent_id),
                    old(parent_recorder).failed_records(), final(parent_recorder).failed_records(),
                    old(child_recorder).failed_records(), final(child_recorder).failed_records()),
    {
        let prun = parent_recorder.run_id();
        if prun != request.parent_run_id {
            return Err(LocalDelegationError::TraceRunMismatch { runtime_run_id: prun, delegation_run_id: request.parent_run_id });
        }
        let crun = child_recorder.run_id();
        if crun != request.child_run_id {
            return Err(LocalDelegationError::TraceRunMismatch { runtime_run_id: crun, delegation_run_id: request.child_run_id });
        }
        let pi = match self.find_run(&request.parent_run_id) {
            None => return Err(LocalDelegationError::UnknownParentRun(request.parent_run_id)),
            Some(i) => i,
        };
        let ti = match self.find_agent(&request.target_agent_id) {
            None => return Err(LocalDelegationError::UnknownAgent(request.target_agent_id)),
            Some(i) => i,
        };
        let duplicate = self.find_run(&request.child_run_id).is_some();
        if self.runs[pi].1.status == LocalRunStatus::Cancelled {
            record_delegation_rejection(parent_recorder, &request, "parent_run_cancelled")?;
            return Err(LocalDelegationError::ParentCancelled(request.parent_run_id));
        }
        if duplicate {
            record_delegation_rejection(parent_recorder, &request, "duplicate_child_run_id")?;
            return Err(LocalDelegationError::DuplicateChildRun(request.child_run_id));
        }
        if self.runs[pi].1.agent_id != request.source_agent_id {
            return Err(LocalDelegationError::SourceAgentMismatch);
        }
        if self.runs[pi].1.tenant_id != self.agents[ti].1.agent.tenant_id {
            return Err(LocalDelegationError::TenantMismatch);
        }
        if !request.delegated_authority.is_subset_of(&self.runs[pi].1.authority) {
            record_delegation_rejection(parent_recorder, &request, "delegated_authority_exceeds_parent_scope")?;
            return Err(LocalDelegationError::DelegatedAuthorityDenied { scope: "parent" });
        }
        if !request.delegated_authority.is_subset_of(&self.agents[ti].1.authority) {
            record_delegation_rejection(parent_recorder, &request, "delegated_authority_exceeds_target_scope")?;
            return Err(LocalDelegationError::DelegatedAuthorityDenied { scope: "target" });
        }

        let ghost p0 = parent_recorder.recorded();
        let mut context = request.trace_context();
        let requested_context = request.trace_context();
        let requested = match parent_recorder.record_message_event(TraceEventKind::DelegationRequested { delegation: requested_context }) {
            Ok(id) => id,
            Err(e) => return Err(LocalDelegationError::Router(MessageRouterError::Trace(e))),
        };
        let ghost p1 = parent_recorder.recorded();
        context.parent_trace_id = Some(requested);

        let message = Message {
            message_id: request_message_id,
            source_agent_id: request.source_agent_id,
            target_agent_id: request.target_agent_id,
            run_id: request.parent_run_id,
            schema: String::from_str(TASK_REQUEST_SCHEMA),
            payload: task_request_payload(&request),
            causal_trace_id: Some(requested),
            requires_response: true,
            created_at: now,
        };
        proof {
            reveal_strlit("splendor.task_request.v1");
            assert(message_validation(message) == task_message_problem(request_message_id, request.source_agent_id,
                request.target_agent_id, request.parent_run_id));
        }
        let envelope = match MessageEnvelope::new(message) {
            Ok(e) => e,
            Err(e) => return Err(LocalDelegationError::Message(e)),
        };
        proof {
            self.router.lemma_fresh_route_check(parent_recorder.recorder_run(), envelope.message, now);
        }
        let routed = match self.router.send_at(parent_recorder, envelope, now) {
            Ok(e) => e,
            Err(e) => return Err(LocalDelegationError::Router(e)),
        };
        proof {
            let p2 = parent_recorder.recorded();
            assert(p2.take(p1.len() as int) == p1);
            assert(p2[p0.len() as int] == p1[p0.len() as int]);
            assert(p2.take(p0.len() as int) =~= p0);
        }
        context.request_message_id = Some(request_message_id);

        let started = match child_recorder.record_message_event(TraceEventKind::ChildRunStarted { delegation: context }) {
            Ok(id) => id,
            Err(e) => return Err(LocalDelegationError::Router(MessageRouterError::Trace(e))),
        };
        proof {
            assert(final(child_recorder).recorded().drop_last() =~= old(child_recorder).recorded());
        }

        let mut child_agent = self.agents[ti].1.agent.duplicate();
        child_agent.set_delegated_authority(request.delegated_authority.duplicate());
        let tenant_id = self.runs[pi].1.tenant_id;
        let record = LocalRunRecord {
            run_id: request.child_run_id,
            agent_id: request.target_agent_id,
            tenant_id,
            parent_run_id: Some(request.parent_run_id),
            child_run_ids: Vec::new(),
            authority: request.delegated_authority,
            objective: Some(request.objective),
            parent_trace_id: Some(requested),
            status: LocalRunStatus::Running,
            request_message_id: Some(request_message_id),
            response_message_id: None,
        };
        let copy = record.duplicate();

        let ghost before = self.runs@;
        self.runs[pi].1.child_run_ids.push(request.child_run_id);
        proof {
            let g = self.runs@[pi as int].1;
            assert(self.runs@ == before.update(pi as int, (request.parent_run_id, g)));
            assert forall|q: RunId| #[trigger] assoc_get(self.runs@, q) == if q == request.parent_run_id { Some(g) } else { assoc_get(before, q) } by {
                lemma_assoc_update(before, request.parent_run_id, pi as int, g, q);
            }
        }
        self.put_run(request.child_run_id, record);
        Ok(LocalChildRun { run: copy, child_agent, request_message: routed, child_started_trace_id: started })
    }
}

/// The first check that finishing a child run fails.
pub enum FinishCheck {
    ChildRecorderMismatch,
    UnknownChild,
    AlreadyFinished,
    NoParent,
    UnknownParent,
    ParentRecorderMismatch,
    Finish,
}

/// The run status a task response status leaves a child run in.
pub open spec fn finished_status(s: TaskResponseStatus) -> LocalRunStatus {
    match s {
        TaskResponseStatus::Completed => LocalRunStatus::Completed,
        TaskResponseStatus::Failed => LocalRunStatus::Failed,
        TaskResponseStatus::Denied => LocalRunStatus::Denied,
        TaskResponseStatus::Cancelled => LocalRunStatus::Cancelled,
    }
}

fn default_failure() -> (r: TaskFailure)
    ensures
        r.code@ == "child_failed"@,
        r.message@ == "child run failed"@,
        !r.retryable,
        r.trace_id is None,
{
    TaskFailure { code: String::from_str("child_failed"), message: String::from_str("child run failed"), retryable: false, trace_id: None }
}

fn copy_failure(f: &TaskFailure) -> (r: TaskFailure)
    ensures
        r.code@ == f.code@,
        r.message@ == f.message@,
        r.retryable == f.retryable,
        r.trace_id == f.trace_id,
{
    TaskFailure { code: f.code.clone(), message: f.message.clone(), retryable: f.retryable, trace_id: f.trace_id }
}

/// How a trace id is written in a failure: its run as hex text and its
/// sequence.
pub open spec fn trace_id_json_of(j: Json, t: TraceEventId) -> bool {
    &&& j is Object
    &&& json_get(j, "run_id"@) matches Some(x) && json_str(x) == Some(uuid_text(t.run_id.value))
    &&& json_get(j, "sequence"@) == Some(Json::UInt(t.sequence))
}

fn trace_id_json(t: TraceEventId) -> (r: Json)
    ensures
        trace_id_json_of(r, t),
{
    proof {
        reveal_strlit("run_id");
        reveal_strlit("sequence");
        assert("run_id"@.len() != "sequence"@.len());
    }
    let mut id = Json::object();
    id.insert(String::from_str("run_id"), Json::Str(uuid_string(t.run_id.value)));
    let ghost id_1 = id;
    id.insert(String::from_str("sequence"), Json::UInt(t.sequence));
    assert(json_get(id, "run_id"@) == json_get(id_1, "run_id"@));
    id
}

/// How a task failure is written: code, message, whether it may be retried
/// and its trace id (null when absent).
pub open spec fn failure_json_of(j: Json, f: TaskFailure) -> bool {
    &&& j is Object
    &&& json_get(j, "code"@) matches Some(x) && json_str(x) == Some(f.code@)
    &&& json_get(j, "message"@) matches Some(x) && json_str(x) == Some(f.message@)
    &&& json_get(j, "retryable"@) == Some(Json::Bool(f.retryable))
    &&& json_get(j, "trace_id"@) matches Some(x) && (match f.trace_id {
        Some(t) => trace_id_json_of(x, t),
        None => x is Null,
    })
}

fn failure_json(f: &TaskFailure) -> (r: Json)
    ensures
        failure_json_of(r, *f),
{
    proof {
        reveal_strlit("code");
        reveal_strlit("message");
        reveal_strlit("retryable");
        reveal_strlit("trace_id");
        assert("code"@.len() != "message"@.len());
        assert("code"@.len() != "retryable"@.len());
        assert("code"@.len() != "trace_id"@.len());
        assert("message"@.len() != "retryable"@.len());
        assert("message"@.len() != "trace_id"@.len());
        assert("retryable"@.len() != "trace_id"@.len());
    }
    let mut o = Json::object();
    o.insert(String::from_str("code"), Json::string(&f.code));
    let ghost o_1 = o;
    o.insert(String::from_str("message"), Json::string(&f.message));
    assert(json_get(o, "code"@) == json_get(o_1, "code"@));
    let ghost o_2 = o;
    o.insert(String::from_str("retryable"), Json::Bool(f.retryable));
    assert(json_get(o, "code"@) == json_get(o_2, "code"@));
    assert(json_get(o, "message"@) == json_get(o_2, "message"@));
    let ghost o_3 = o;
    match f.trace_id {
        Some(t) => {
            let id = trace_id_json(t);
            o.insert(String::from_str("trace_id"), id);
        },
        None => o.insert(String::from_str("trace_id"), Json::Null),
    }
    assert(json_get(o, "code"@) == json_get(o_3, "code"@));
    assert(json_get(o, "message"@) == json_get(o_3, "message"@));
    assert(json_get(o, "retryable"@) == json_get(o_3, "retryable"@));
    o
}

/// The name a task response status is written with.
pub open spec fn task_status_text(s: TaskResponseStatus) -> Seq<char> {
    match s {
        TaskResponseStatus::Completed => "completed"@,
        TaskResponseStatus::Failed => "failed"@,
        TaskResponseStatus::Denied => "denied"@,
        TaskResponseStatus::Cancelled => "cancelled"@,
    }
}

fn status_text(s: TaskResponseStatus) -> (r: &'static str)
    ensures
        r@ == task_status_text(s),
{
    match s {
        TaskResponseStatus::Completed => "completed",
        TaskResponseStatus::Failed => "failed",
        TaskResponseStatus::Denied => "denied",
        TaskResponseStatus::Cancelled => "cancelled",
    }
}

/// The task response payload sent back to a parent run.
/// The task response sent back to a parent run: the two runs as hex text,
/// the status, a copy of the output and the failure (null when absent).
pub open spec fn task_response_json_of(j: Json, r: TaskResponse) -> bool {
    &&& j is Object
    &&& json_get(j, "parent_run_id"@) matches Some(x) && json_str(x) == Some(uuid_text(r.parent_run_id.value))
    &&& json_get(j, "child_run_id"@) matches Some(x) && json_str(x) == Some(uuid_text(r.child_run_id.value))
    &&& json_get(j, "status"@) matches Some(x) && json_str(x) == Some(task_status_text(r.status))
    &&& json_get(j, "output"@) matches Some(x) && (match r.output {
        Some(v) => crate::json::json_same(x, v),
        None => x is Null,
    })
    &&& json_get(j, "failure"@) matches Some(x) && (match r.failure {
        Some(f) => failure_json_of(x, f),
        None => x is Null,
    })
}

fn task_response_payload(r: &TaskResponse) -> (j: Json)
    ensures
        task_response_json_of(j, *r),
{
    proof {
        reveal_strlit("parent_run_id");
        reveal_strlit("child_run_id");
        reveal_strlit("status");
        reveal_strlit("output");
        reveal_strlit("failure");
        assert("parent_run_id"@.len() != "child_run_id"@.len());
        assert("parent_run_id"@.len() != "status"@.len());
        assert("parent_run_id"@.len() != "output"@.len());
        assert("parent_run_id"@.len() != "failure"@.len());
        assert("child_run_id"@.len() != "status"@.len());
        assert("child_run_id"@.len() != "output"@.len());
        assert("child_run_id"@.len() != "failure"@.len());
        assert("status"@[0] != "output"@[0]);
        assert("status"@.len() != "failure"@.len());
        assert("output"@.len() != "failure"@.len());
    }
    let mut o = Json::object();
    o.insert(String::from_str("parent_run_id"), Json::Str(uuid_string(r.parent_run_id.value)));
    let ghost o_1 = o;
    o.insert(String::from_str("child_run_id"), Json::Str(uuid_string(r.child_run_id.value)));
    assert(json_get(o, "parent_run_id"@) == json_get(o_1, "parent_run_id"@));
    let ghost o_2 = o;
    o.insert(String::from_str("status"), Json::Str(String::from_str(status_text(r.status))));
    assert(json_get(o, "parent_run_id"@) == json_get(o_2, "parent_run_id"@));
    assert(json_get(o, "child_run_id"@) == json_get(o_2, "child_run_id"@));
    let ghost o_3 = o;
    match &r.output {
        Some(v) => o.insert(String::from_str("output"), crate::json::copy_json(v)),
        None => o.insert(String::from_str("output"), Json::Null),
    }
    assert(json_get(o, "parent_run_id"@) == json_get(o_3, "parent_run_id"@));
    assert(json_get(o, "child_run_id"@) == json_get(o_3, "child_run_id"@));
    assert(json_get(o, "status"@) == json_get(o_3, "status"@));
    let ghost o_4 = o;
    match &r.failure {
        Some(f) => o.insert(String::from_str("failure"), failure_json(f)),
        None => o.insert(String::from_str("failure"), Json::Null),
    }
    assert(json_get(o, "parent_run_id"@) == json_get(o_4, "parent_run_id"@));
    assert(json_get(o, "child_run_id"@) == json_get(o_4, "child_run_id"@));
    assert(json_get(o, "status"@) == json_get(o_4, "status"@));
    assert(json_get(o, "output"@) == json_get(o_4, "output"@));
    o
}

impl LocalDelegationManager {
    /// The first check that finishing `child_run_id` fails, for a parent
    /// recorder of `prun` and a child recorder of `crun`.
    pub open spec fn finish_check(&self, prun: RunId, crun: RunId, child_run_id: RunId) -> FinishCheck {
        if crun != child_run_id {
            FinishCheck::ChildRecorderMismatch
        } else if self.run_of(child_run_id) is None {
            FinishCheck::UnknownChild
        } else {
            let child = self.run_of(child_run_id).unwrap();
            if child.status.terminal() || child.response_message_id is Some {
                FinishCheck::AlreadyFinished
            } else if child.parent_run_id is None {
                FinishCheck::NoParent
            } else if self.run_of(child.parent_run_id.unwrap()) is None {
                FinishCheck::UnknownParent
            } else if prun != self.run_of(child.parent_run_id.unwrap()).unwrap().run_id {
                FinishCheck::ParentRecorderMismatch
            } else {
                FinishCheck::Finish
            }
        }
    }

    /// The refusal that finishing `child_run_id` answers with, for a parent
    /// recorder of `prun` and a child recorder of `crun`, when a check fails.
    pub open spec fn finish_refusal(&self, prun: RunId, crun: RunId, child_run_id: RunId,
        r: Result<LocalTaskResponse, LocalDelegationError>) -> bool {
        match self.finish_check(prun, crun, child_run_id) {
            FinishCheck::ChildRecorderMismatch =>
                r matches Err(LocalDelegationError::TraceRunMismatch { runtime_run_id, delegation_run_id })
                    && runtime_run_id == crun && delegation_run_id == child_run_id,
            FinishCheck::UnknownChild => r matches Err(LocalDelegationError::UnknownChildRun(id)) && id == child_run_id,
            FinishCheck::AlreadyFinished =>
                r matches Err(LocalDelegationError::ChildRunAlreadyFinished { child_run_id: id, status: st })
                    && id == child_run_id && st == self.run_of(child_run_id).unwrap().status,
            FinishCheck::NoParent => r matches Err(LocalDelegationError::UnknownParentRun(id)) && id == child_run_id,
            FinishCheck::UnknownParent =>
                r matches Err(LocalDelegationError::UnknownParentRun(id)) && id == self.run_of(child_run_id).unwrap().parent_run_id.unwrap(),
            FinishCheck::ParentRecorderMismatch =>
                r matches Err(LocalDelegationError::TraceRunMismatch { runtime_run_id, delegation_run_id })
                    && runtime_run_id == prun
                    && delegation_run_id == self.run_of(self.run_of(child_run_id).unwrap().parent_run_id.unwrap()).unwrap().run_id,
            FinishCheck::Finish => true,
        }
    }

    /// Finishes a running child run with `status`: the child's trace records
    /// its completion or failure, a task response (message id
    /// `response_message_id`) is routed from the child agent to the parent
    /// agent, the parent's trace records the same, and the child run takes
    /// the matching terminal status. A child run finishes at most once.
    #[verifier::rlimit(40)]
    pub fn finish_child_run<P: MessageTraceRecorder, C: MessageTraceRecorder>(
        &mut self,
        parent_recorder: &mut P,
        child_recorder: &mut C,
        child_run_id: &RunId,
        status: TaskResponseStatus,
        output: Option<Json>,
        failure: Option<TaskFailure>,
        response_message_id: MessageId,
    ) -> (r: Result<LocalTaskResponse, LocalDelegationError>)
        ensures
            final(parent_recorder).recorder_run() == old(parent_recorder).recorder_run(),
            final(child_recorder).recorder_run() == old(child_recorder).recorder_run(),
            forall|q: AgentId| #[trigger] final(self).agent_of(q) == old(self).agent_of(q),
            r is Ok ==> old(self).finish_check(old(parent_recorder).recorder_run(), old(child_recorder).recorder_run(), *child_run_id) is Finish,
            r is Err ==> forall|q: RunId| #[trigger] final(self).run_of(q) == old(self).run_of(q),
            // A refused finish records nothing on either trace and routes no message.
            !(old(self).finish_check(old(parent_recorder).recorder_run(), old(child_recorder).recorder_run(), *child_run_id) is Finish)
                ==> final(parent_recorder).recorded() == old(parent_recorder).recorded()
                    && final(child_recorder).recorded() == old(child_recorder).recorded()
                    && final(self).routing() == old(self).routing(),
            match old(self).finish_check(old(parent_recorder).recorder_run(), old(child_recorder).recorder_run(), *child_run_id) {
                FinishCheck::ChildRecorderMismatch =>
                    r matches Err(LocalDelegationError::TraceRunMismatch { runtime_run_id, delegation_run_id })
                        && runtime_run_id == old(child_recorder).recorder_run() && delegation_run_id == *child_run_id,
                FinishCheck::UnknownChild => r matches Err(LocalDelegationError::UnknownChildRun(id)) && id == *child_run_id,
                FinishCheck::AlreadyFinished =>
                    r matches Err(LocalDelegationError::ChildRunAlreadyFinished { child_run_id: id, status: st })
                        && id == *child_run_id && st == old(self).run_of(*child_run_id).unwrap().status,
                FinishCheck::NoParent => r matches Err(LocalDelegationError::UnknownParentRun(id)) && id == *child_run_id,
                FinishCheck::UnknownParent =>
                    r matches Err(LocalDelegationError::UnknownParentRun(id)) && id == old(self).run_of(*child_run_id).unwrap().parent_run_id.unwrap(),
                FinishCheck::ParentRecorderMismatch =>
                    r matches Err(LocalDelegationError::TraceRunMismatch { runtime_run_id, delegation_run_id })
                        && runtime_run_id == old(parent_recorder).recorder_run()
                        && delegation_run_id == old(self).run_of(old(self).run_of(*child_run_id).unwrap().parent_run_id.unwrap()).unwrap().run_id,
                FinishCheck::Finish => true,
            },
            r matches Ok(resp) ==> {
                let child = old(self).run_of(*child_run_id).unwrap();
                let parent = old(self).run_of(child.parent_run_id.unwrap()).unwrap();
                &&& final(self).run_of(*child_run_id) == Some(LocalRunRecord {
                        status: finished_status(status),
                        response_message_id: Some(response_message_id),
                        ..child
                    })
                &&& forall|q: RunId| q != *child_run_id ==> #[trigger] final(self).run_of(q) == old(self).run_of(q)
                &&& resp.response.parent_run_id == parent.run_id
                &&& resp.response.child_run_id == child.run_id
                &&& resp.response.status == status
                &&& resp.response.output == output
                &&& resp.response.failure is Some == failure is Some
                &&& resp.response_message.message.message_id == response_message_id
                &&& resp.response_message.message.source_agent_id == child.agent_id
                &&& resp.response_message.message.target_agent_id == parent.agent_id
                &&& resp.response_message.message.run_id == parent.run_id
                &&& resp.response_message.message.schema@ == TASK_RESPONSE_SCHEMA@
                &&& !resp.response_message.message.requires_response
                &&& resp.response_message.delivery_status == MessageDeliveryStatus::Delivered
                &&& resp.child_trace_id.run_id == *child_run_id
                &&& resp.parent_trace_id.run_id == parent.run_id
                &&& one_more(old(child_recorder).recorded(), final(child_recorder).recorded())
                &&& (status is Completed ==> final(child_recorder).recorded().last() is ChildRunCompleted)
                &&& (!(status is Completed) ==> final(child_recorder).recorded().last() is ChildRunFailed)
                // The parent trace gains the routed response's queued and
                // delivered events, then the child's completion or failure.
                &&& final(parent_recorder).recorded().len() == old(parent_recorder).recorded().len() + 3
                &&& final(parent_recorder).recorded().take(old(parent_recorder).recorded().len() as int) == old(parent_recorder).recorded()
                &&& final(parent_recorder).recorded()[old(parent_recorder).recorded().len() as int]
                        matches TraceEventKind::MessageQueued { message } && message.message_id == response_message_id
                &&& final(parent_recorder).recorded()[old(parent_recorder).recorded().len() as int + 1]
                        matches TraceEventKind::MessageDelivered { message } && message.message_id == response_message_id
                &&& (status is Completed ==> (final(parent_recorder).recorded().last() matches TraceEventKind::ChildRunCompleted { delegation }
                        && delegation.child_run_id == child.run_id && delegation.response_message_id == Some(response_message_id)))
                &&& (!(status is Completed) ==> (final(parent_recorder).recorded().last() matches TraceEventKind::ChildRunFailed { delegation, .. }
                        && delegation.child_run_id == child.run_id && delegation.response_message_id == Some(response_message_id)))
                &&& final(parent_recorder).failed_records() == old(parent_recorder).failed_records()
                &&& final(child_recorder).failed_records() == old(child_recorder).failed_records()
            },
            // Failures never decrease; a finish that passes every check fails
            // only when a recording failed, the message is invalid, or the
            // router refuses it.
            final(parent_recorder).failed_records() >= old(parent_recorder).failed_records(),
            final(child_recorder).failed_records() >= old(child_recorder).failed_records(),
            old(self).finish_check(old(parent_recorder).recorder_run(), old(child_recorder).recorder_run(), *child_run_id) is Finish ==> {
                let child = old(self).run_of(*child_run_id).unwrap();
                let parent = old(self).run_of(child.parent_run_id.unwrap()).unwrap();
                task_message_outcome(r,
                    task_message_problem(response_message_id, child.agent_id, parent.agent_id, parent.run_id),
                    old(self).routing().fresh_route_check(child.agent_id, parent.agent_id),
                    old(parent_recorder).failed_records(), final(parent_recorder).failed_records(),
                    old(child_recorder).failed_records(), final(child_recorder).failed_records())
            },
    {
        let now = now_utc();
        self.finish_child_run_at(parent_recorder, child_recorder, child_run_id, status, output, failure, response_message_id, now)
    }

    /// The same, at time `now`: the routed message is created and sent at `now`.
    #[verifier::rlimit(40)]
    pub fn finish_child_run_at<P: MessageTraceRecorder, C: MessageTraceRecorder>(
        &mut self,
        parent_recorder: &mut P,
        child_recorder: &mut C,
        child_run_id: &RunId,
        status: TaskResponseStatus,
        output: Option<Json>,
        failure: Option<TaskFailure>,
        response_message_id: MessageId,
        now: crate::clock::Timestamp,
    ) -> (r: Result<LocalTaskResponse, LocalDelegationError>)
        ensures
            r matches Ok(resp) ==> resp.response_message.message.created_at == now,
            final(parent_recorder).recorder_run() == old(parent_recorder).recorder_run(),
            final(child_recorder).recorder_run() == old(child_recorder).recorder_run(),
            forall|q: AgentId| #[trigger] final(self).agent_of(q) == old(self).agent_of(q),
            r is Ok ==> old(self).finish_check(old(parent_recorder).recorder_run(), old(child_recorder).recorder_run(), *child_run_id) is Finish,
            r is Err ==> forall|q: RunId| #[trigger] final(self).run_of(q) == old(self).run_of(q),
            // A refused finish records nothing on either trace and routes no message.
            !(old(self).finish_check(old(parent_recorder).recorder_run(), old(child_recorder).recorder_run(), *child_run_id) is Finish)
                ==> final(parent_recorder).recorded() == old(parent_recorder).recorded()
                    && final(child_recorder).recorded() == old(child_recorder).recorded()
                    && final(self).routing() == old(self).routing(),
            match old(self).finish_check(old(parent_recorder).recorder_run(), old(child_recorder).recorder_run(), *child_run_id) {
                FinishCheck::ChildRecorderMismatch =>
                    r matches Err(LocalDelegationError::TraceRunMismatch { runtime_run_id, delegation_run_id })
                        && runtime_run_id == old(child_recorder).recorder_run() && delegation_run_id == *child_run_id,
                FinishCheck::UnknownChild => r matches Err(LocalDelegationError::UnknownChildRun(id)) && id == *child_run_id,
                FinishCheck::AlreadyFinished =>
                    r matches Err(LocalDelegationError::ChildRunAlreadyFinished { child_run_id: id, status: st })
                        && id == *child_run_id && st == old(self).run_of(*child_run_id).unwrap().status,
                FinishCheck::NoParent => r matches Err(LocalDelegationError::UnknownParentRun(id)) && id == *child_run_id,
                FinishCheck::UnknownParent =>
                    r matches Err(LocalDelegationError::UnknownParentRun(id)) && id == old(self).run_of(*child_run_id).unwrap().parent_run_id.unwrap(),
                FinishCheck::ParentRecorderMismatch =>
                    r matches Err(LocalDelegationError::TraceRunMismatch { runtime_run_id, delegation_run_id })
                        && runtime_run_id == old(parent_recorder).recorder_run()
                        && delegation_run_id == old(self).run_of(old(self).run_of(*child_run_id).unwrap().parent_run_id.unwrap()).unwrap().run_id,
                FinishCheck::Finish => true,
            },
            r matches Ok(resp) ==> {
                let child = old(self).run_of(*child_run_id).unwrap();
                let parent = old(self).run_of(child.parent_run_id.unwrap()).unwrap();
                &&& final(self).run_of(*child_run_id) == Some(LocalRunRecord {
                        status: finished_status(status),
                        response_message_id: Some(response_message_id),
                        ..child
                    })
                &&& forall|q: RunId| q != *child_run_id ==> #[trigger] final(self).run_of(q) == old(self).run_of(q)
                &&& resp.response.parent_run_id == parent.run_id
                &&& resp.response.child_run_id == child.run_id
                &&& resp.response.status == status
                &&& resp.response.output == output
                &&& resp.response.failure is Some == failure is Some
                &&& resp.response_message.message.message_id == response_message_id
                &&& resp.response_message.message.source_agent_id == child.agent_id
                &&& resp.response_message.message.target_agent_id == parent.agent_id
                &&& resp.response_message.message.run_id == parent.run_id
                &&& resp.response_message.message.schema@ == TASK_RESPONSE_SCHEMA@
                &&& !resp.response_message.message.requires_response
                &&& resp.response_message.delivery_status == MessageDeliveryStatus::Delivered
                &&& resp.child_trace_id.run_id == *child_run_id
                &&& resp.parent_trace_id.run_id == parent.run_id
                &&& one_more(old(child_recorder).recorded(), final(child_recorder).recorded())
                &&& (status is Completed ==> final(child_recorder).recorded().last() is ChildRunCompleted)
                &&& (!(status is Completed) ==> final(child_recorder).recorded().last() is ChildRunFailed)
                // The parent trace gains the routed response's queued and
                // delivered events, then the child's completion or failure.
                &&& final(parent_recorder).recorded().len() == old(parent_recorder).recorded().len() + 3
                &&& final(parent_recorder).recorded().take(old(parent_recorder).recorded().len() as int) == old(parent_recorder).recorded()
                &&& final(parent_recorder).recorded()[old(parent_recorder).recorded().len() as int]
                        matches TraceEventKind::MessageQueued { message } && message.message_id == response_message_id
                &&& final(parent_recorder).recorded()[old(parent_recorder).recorded().len() as int + 1]
                        matches TraceEventKind::MessageDelivered { message } && message.message_id == response_message_id
                &&& (status is Completed ==> (final(parent_recorder).recorded().last() matches TraceEventKind::ChildRunCompleted { delegation }
                        && delegation.child_run_id == child.run_id && delegation.response_message_id == Some(response_message_id)))
                &&& (!(status is Completed) ==> (final(parent_recorder).recorded().last() matches TraceEventKind::ChildRunFailed { delegation, .. }
                        && delegation.child_run_id == child.run_id && delegation.response_message_id == Some(response_message_id)))
                &&& final(parent_recorder).failed_records() == old(parent_recorder).failed_records()
                &&& final(child_recorder).failed_records() == old(child_recorder).failed_records()
            },
            // Failures never decrease; a finish that passes every check fails
            // only when a recording failed, the message is invalid, or the
            // router refuses it.
            final(parent_recorder).failed_records() >= old(parent_recorder).failed_records(),
            final(child_recorder).failed_records() >= old(child_recorder).failed_records(),
            old(self).finish_check(old(parent_recorder).recorder_run(), old(child_recorder).recorder_run(), *child_run_id) is Finish ==> {
                let child = old(self).run_of(*child_run_id).unwrap();
                let parent = old(self).run_of(child.parent_run_id.unwrap()).unwrap();
                task_message_outcome(r,
                    task_message_problem(response_message_id, child.agent_id, parent.agent_id, parent.run_id),
                    old(self).routing().fresh_route_check(child.agent_id, parent.agent_id),
                    old(parent_recorder).failed_records(), final(parent_recorder).failed_records(),
                    old(child_recorder).failed_records(), final(child_recorder).failed_records())
            },
    {
        let crun = child_recorder.run_id();
        if crun != *child_run_id {
            return Err(LocalDelegationError::TraceRunMismatch { runtime_run_id: crun, delegation_run_id: *child_run_id });
        }
        let ci = match self.find_run(child_run_id) {
            None => return Err(LocalDelegationError::UnknownChildRun(*child_run_id)),
            Some(i) => i,
        };
        if self.runs[ci].1.status.is_terminal() || self.runs[ci].1.response_message_id.is_some() {
            return Err(LocalDelegationError::ChildRunAlreadyFinished { child_run_id: *child_run_id, status: self.runs[ci].1.status });
        }
        let parent_run_id = match self.runs[ci].1.parent_run_id {
            None => return Err(LocalDelegationError::UnknownParentRun(*child_run_id)),
            Some(p) => p,
        };
        let pi = match self.find_run(&parent_run_id) {
            None => return Err(LocalDelegationError::UnknownParentRun(parent_run_id)),
            Some(i) => i,
        };
        let prun = parent_recorder.run_id();
        if prun != self.runs[pi].1.run_id {
            return Err(LocalDelegationError::TraceRunMismatch { runtime_run_id: prun, delegation_run_id: self.runs[pi].1.run_id });
        }
        let parent_id = self.runs[pi].1.run_id;
        let parent_agent = self.runs[pi].1.agent_id;
        let child_id = self.runs[ci].1.run_id;
        let child_agent = self.runs[ci].1.agent_id;
        let objective = match &self.runs[ci].1.objective {
            Some(o) => o.clone(),
            None => String::new(),
        };
        let mut context = LocalDelegationTraceContext {
            parent_run_id: parent_id,
            child_run_id: child_id,
            parent_trace_id: self.runs[ci].1.parent_trace_id,
            request_message_id: self.runs[ci].1.request_message_id,
            response_message_id: None,
            source_agent_id: parent_agent,
            target_agent_id: child_agent,
            objective,
        };
        let child_kind = match status {
            TaskResponseStatus::Completed => TraceEventKind::ChildRunCompleted { delegation: context.clone() },
            _ => {
                let f = match &failure {
                    Some(f) => copy_failure(f),
                    None => default_failure(),
                };
                TraceEventKind::ChildRunFailed { delegation: context.clone(), failure: f }
            },
        };
        let child_trace = match child_recorder.record_message_event(child_kind) {
            Ok(id) => id,
            Err(e) => return Err(LocalDelegationError::Router(MessageRouterError::Trace(e))),
        };
        proof {
            assert(final(child_recorder).recorded().drop_last() =~= old(child_recorder).recorded());
        }
        let failure = match failure {
            Some(f) => Some(TaskFailure { trace_id: Some(child_trace), ..f }),
            None => None,
        };
        let response = TaskResponse { parent_run_id: parent_id, child_run_id: child_id, status, output, failure };
        let message = Message {
            message_id: response_message_id,
            source_agent_id: child_agent,
            target_agent_id: parent_agent,
            run_id: parent_id,
            schema: String::from_str(TASK_RESPONSE_SCHEMA),
            payload: task_response_payload(&response),
            causal_trace_id: Some(child_trace),
            requires_response: false,
            created_at: now,
        };
        proof {
            reveal_strlit("splendor.task_response.v1");
            assert(message_validation(message) == task_message_problem(response_message_id, child_agent,
                parent_agent, parent_id));
        }
        let envelope = match MessageEnvelope::new(message) {
            Ok(e) => e,
            Err(e) => return Err(LocalDelegationError::Message(e)),
        };
        let ghost q0 = parent_recorder.recorded();
        proof {
            self.router.lemma_fresh_route_check(parent_recorder.recorder_run(), envelope.message, now);
        }
        let routed = match self.router.send_at(parent_recorder, envelope, now) {
            Ok(e) => e,
            Err(e) => return Err(LocalDelegationError::Router(e)),
        };
        let ghost q2 = parent_recorder.recorded();
        context.response_message_id = Some(response_message_id);
        let parent_kind = match status {
            TaskResponseStatus::Completed => TraceEventKind::ChildRunCompleted { delegation: context },
            _ => {
                let f = match &response.failure {
                    Some(f) => copy_failure(f),
                    None => default_failure(),
                };
                TraceEventKind::ChildRunFailed { delegation: context, failure: f }
            },
        };
        let parent_trace = match parent_recorder.record_message_event(parent_kind) {
            Ok(id) => id,
            Err(e) => return Err(LocalDelegationError::Router(MessageRouterError::Trace(e))),
        };
        proof {
            let q3 = parent_recorder.recorded();
            assert(q3.take(q2.len() as int) =~= q2);
            assert(q3[q0.len() as int] == q2[q0.len() as int]);
            assert(q3[q0.len() as int + 1] == q2[q0.len() as int + 1]);
            assert(q3.take(q0.len() as int) =~= q0);
        }
        let ghost before = self.runs@;
        let new_status = match status {
            TaskResponseStatus::Completed => LocalRunStatus::Completed,
            TaskResponseStatus::Failed => LocalRunStatus::Failed,
            TaskResponseStatus::Denied => LocalRunStatus::Denied,
            TaskResponseStatus::Cancelled => LocalRunStatus::Cancelled,
        };
        self.runs[ci].1.status = new_status;
        self.runs[ci].1.response_message_id = Some(response_message_id);
        proof {
            let g = self.runs@[ci as int].1;
            assert(self.runs@ == before.update(ci as int, (*child_run_id, g)));
            assert forall|q: RunId| #[trigger] assoc_get(self.runs@, q) == if q == *child_run_id { Some(g) } else { assoc_get(before, q) } by {
                lemma_assoc_update(before, *child_run_id, ci as int, g, q);
            }
        }
        Ok(LocalTaskResponse { response, response_message: routed, parent_trace_id: parent_trace, child_trace_id: child_trace })
    }

    /// Completes a child run with its output.
    pub fn complete_child_run<P: MessageTraceRecorder, C: MessageTraceRecorder>(
        &mut self,
        parent_recorder: &mut P,
        child_recorder: &mut C,
        child_run_id: &RunId,
        output: Json,
        response_message_id: MessageId,
    ) -> (r: Result<LocalTaskResponse, LocalDelegationError>)
        ensures
            r is Ok ==> old(self).finish_check(old(parent_recorder).recorder_run(), old(child_recorder).recorder_run(), *child_run_id) is Finish,
            r is Err ==> forall|q: RunId| #[trigger] final(self).run_of(q) == old(self).run_of(q),
            r matches Ok(resp) ==> resp.response.status == TaskResponseStatus::Completed
                && resp.response.output == Some(output) && resp.response.failure is None
                && final(self).run_of(*child_run_id) == Some(LocalRunRecord {
                    status: LocalRunStatus::Completed,
                    response_message_id: Some(response_message_id),
                    ..old(self).run_of(*child_run_id).unwrap()
                })
                && (forall|q: RunId| q != *child_run_id ==> #[trigger] final(self).run_of(q) == old(self).run_of(q))
                && resp.response.child_run_id == old(self).run_of(*child_run_id).unwrap().run_id
                && resp.response.parent_run_id == old(self).run_of(old(self).run_of(*child_run_id).unwrap().parent_run_id.unwrap()).unwrap().run_id
                && resp.response_message.message.message_id == response_message_id
                && resp.response_message.delivery_status == MessageDeliveryStatus::Delivered
                && resp.response_message.message.source_agent_id == old(self).run_of(*child_run_id).unwrap().agent_id
                && resp.response_message.message.target_agent_id
                    == old(self).run_of(old(self).run_of(*child_run_id).unwrap().parent_run_id.unwrap()).unwrap().agent_id
                && resp.response_message.message.run_id
                    == old(self).run_of(old(self).run_of(*child_run_id).unwrap().parent_run_id.unwrap()).unwrap().run_id
                && resp.response_message.message.schema@ == TASK_RESPONSE_SCHEMA@,
            !(old(self).finish_check(old(parent_recorder).recorder_run(), old(child_recorder).recorder_run(), *child_run_id) is Finish)
                ==> final(parent_recorder).recorded() == old(parent_recorder).recorded()
                    && final(child_recorder).recorded() == old(child_recorder).recorded()
                    && final(self).routing() == old(self).routing(),
            old(self).finish_refusal(old(parent_recorder).recorder_run(), old(child_recorder).recorder_run(), *child_run_id, r),
            forall|q: AgentId| #[trigger] final(self).agent_of(q) == old(self).agent_of(q),
            old(self).finish_check(old(parent_recorder).recorder_run(), old(child_recorder).recorder_run(), *child_run_id) is Finish ==> {
                let child = old(self).run_of(*child_run_id).unwrap();
                let parent = old(self).run_of(child.parent_run_id.unwrap()).unwrap();
                task_message_outcome(r,
                    task_message_problem(response_message_id, child.agent_id, parent.agent_id, parent.run_id),
                    old(self).routing().fresh_route_check(child.agent_id, parent.agent_id),
                    old(parent_recorder).failed_records(), final(parent_recorder).failed_records(),
                    old(child_recorder).failed_records(), final(child_recorder).failed_records())
            },
    {
        self.finish_child_run(parent_recorder, child_recorder, child_run_id, TaskResponseStatus::Completed, Some(output), None, response_message_id)
    }

    /// Fails a child run with a structured failure.
    pub fn fail_child_run<P: MessageTraceRecorder, C: MessageTraceRecorder>(
        &mut self,
        parent_recorder: &mut P,
        child_recorder: &mut C,
        child_run_id: &RunId,
        failure: TaskFailure,
        response_message_id: MessageId,
    ) -> (r: Result<LocalTaskResponse, LocalDelegationError>)
        ensures
            r is Ok ==> old(self).finish_check(old(parent_recorder).recorder_run(), old(child_recorder).recorder_run(), *child_run_id) is Finish,
            r is Err ==> forall|q: RunId| #[trigger] final(self).run_of(q) == old(self).run_of(q),
            r matches Ok(resp) ==> resp.response.status == TaskResponseStatus::Failed
                && resp.response.output is None && resp.response.failure is Some
                && final(self).run_of(*child_run_id) == Some(LocalRunRecord {
                    status: LocalRunStatus::Failed,
                    response_message_id: Some(response_message_id),
                    ..old(self).run_of(*child_run_id).unwrap()
                })
                && (forall|q: RunId| q != *child_run_id ==> #[trigger] final(self).run_of(q) == old(self).run_of(q))
                && resp.response.child_run_id == old(self).run_of(*child_run_id).unwrap().run_id
                && resp.response.parent_run_id == old(self).run_of(old(self).run_of(*child_run_id).unwrap().parent_run_id.unwrap()).unwrap().run_id
                && resp.response_message.message.message_id == response_message_id
                && resp.response_message.delivery_status == MessageDeliveryStatus::Delivered
                && resp.response_message.message.source_agent_id == old(self).run_of(*child_run_id).unwrap().agent_id
                && resp.response_message.message.target_agent_id
                    == old(self).run_of(old(self).run_of(*child_run_id).unwrap().parent_run_id.unwrap()).unwrap().agent_id
                && resp.response_message.message.run_id
                    == old(self).run_of(old(self).run_of(*child_run_id).unwrap().parent_run_id.unwrap()).unwrap().run_id
                && resp.response_message.message.schema@ == TASK_RESPONSE_SCHEMA@,
            !(old(self).finish_check(old(parent_recorder).recorder_run(), old(child_recorder).recorder_run(), *child_run_id) is Finish)
                ==> final(parent_recorder).recorded() == old(parent_recorder).recorded()
                    && final(child_recorder).recorded() == old(child_recorder).recorded()
                    && final(self).routing() == old(self).routing(),
            old(self).finish_refusal(old(parent_recorder).recorder_run(), old(child_recorder).recorder_run(), *child_run_id, r),
            forall|q: AgentId| #[trigger] final(self).agent_of(q) == old(self).agent_of(q),
            old(self).finish_check(old(parent_recorder).recorder_run(), old(child_recorder).recorder_run(), *child_run_id) is Finish ==> {
                let child = old(self).run_of(*child_run_id).unwrap();
                let parent = old(self).run_of(child.parent_run_id.unwrap()).unwrap();
                task_message_outcome(r,
                    task_message_problem(response_message_id, child.agent_id, parent.agent_id, parent.run_id),
                    old(self).routing().fresh_route_check(child.agent_id, parent.agent_id),
                    old(parent_recorder).failed_records(), final(parent_recorder).failed_records(),
                    old(child_recorder).failed_records(), final(child_recorder).failed_records())
            },
    {
        self.finish_child_run(parent_recorder, child_recorder, child_run_id, TaskResponseStatus::Failed, None, Some(failure), response_message_id)
    }
}

/// A run that has finished, or already sent its response, is refused by any
/// later attempt to finish it (whatever the recorders).
pub proof fn lemma_child_finishes_once(m: LocalDelegationManager, prun: RunId, child_run_id: RunId)
    requires
        m.run_of(child_run_id) is Some,
        m.run_of(child_run_id).unwrap().status.terminal() || m.run_of(child_run_id).unwrap().response_message_id is Some,
    ensures
        m.finish_check(prun, child_run_id, child_run_id) is AlreadyFinished,
{
}

/// A child run is admitted only inside its parent's authority, inside its
/// target's authority, under a running parent owned by the source agent,
/// within one tenant.
pub proof fn lemma_admission_bounds(m: LocalDelegationManager, prun: RunId, crun: RunId, req: LocalDelegationRequest)
    requires
        m.delegation_check(prun, crun, req) is Admit,
    ensures
        m.run_of(req.parent_run_id) is Some,
        m.agent_of(req.target_agent_id) is Some,
        req.delegated_authority.subset_spec(&m.run_of(req.parent_run_id).unwrap().authority),
        req.delegated_authority.subset_spec(&m.agent_of(req.target_agent_id).unwrap().authority),
        m.run_of(req.parent_run_id).unwrap().status != LocalRunStatus::Cancelled,
        m.run_of(req.parent_run_id).unwrap().agent_id == req.source_agent_id,
        m.run_of(req.parent_run_id).unwrap().tenant_id == m.agent_of(req.target_agent_id).unwrap().agent.tenant_id,
        m.run_of(req.child_run_id) is None,
{
}

/// What a replay of delegation trace events reconstructs.
#[derive(Debug)]
pub struct LocalDelegationReplay {
    pub delegations: Vec<LocalDelegationTraceContext>,
    pub messages: Vec<MessageTraceContext>,
    pub failures: Vec<TaskFailure>,
}

/// The parent/child edge an event is about, if it is a delegation event.
pub open spec fn delegation_edge(k: TraceEventKind) -> Option<(RunId, RunId)> {
    match k {
        TraceEventKind::DelegationRequested { delegation } => Some((delegation.parent_run_id, delegation.child_run_id)),
        TraceEventKind::DelegationRejected { delegation, .. } => Some((delegation.parent_run_id, delegation.child_run_id)),
        TraceEventKind::ChildRunStarted { delegation } => Some((delegation.parent_run_id, delegation.child_run_id)),
        TraceEventKind::ChildRunCompleted { delegation } => Some((delegation.parent_run_id, delegation.child_run_id)),
        TraceEventKind::ChildRunFailed { delegation, .. } => Some((delegation.parent_run_id, delegation.child_run_id)),
        _ => None,
    }
}

pub open spec fn is_task_schema(schema: Seq<char>) -> bool {
    schema == TASK_REQUEST_SCHEMA@ || schema == TASK_RESPONSE_SCHEMA@
}

/// The task message an event is about, if it is a queued, delivered or
/// consumed task request or response.
pub open spec fn task_message(k: TraceEventKind) -> Option<MessageId> {
    match k {
        TraceEventKind::MessageQueued { message } => if is_task_schema(message.schema@) { Some(message.message_id) } else { None },
        TraceEventKind::MessageDelivered { message } => if is_task_schema(message.schema@) { Some(message.message_id) } else { None },
        TraceEventKind::MessageConsumed { message } => if is_task_schema(message.schema@) { Some(message.message_id) } else { None },
        _ => None,
    }
}

/// Distinct parent/child edges of `ev`, in order of first appearance.
pub open spec fn replay_edges(ev: Seq<TraceEventKind>) -> Seq<(RunId, RunId)>
    decreases ev.len(),
{
    if ev.len() == 0 {
        seq![]
    } else {
        let prev = replay_edges(ev.drop_last());
        match delegation_edge(ev.last()) {
            Some(e) => if prev.contains(e) { prev } else { prev.push(e) },
            None => prev,
        }
    }
}

/// Distinct task message ids of `ev`, in order of first appearance.
pub open spec fn replay_messages(ev: Seq<TraceEventKind>) -> Seq<MessageId>
    decreases ev.len(),
{
    if ev.len() == 0 {
        seq![]
    } else {
        let prev = replay_messages(ev.drop_last());
        match task_message(ev.last()) {
            Some(m) => if prev.contains(m) { prev } else { prev.push(m) },
            None => prev,
        }
    }
}

/// The failure codes of the child failures in `ev`, in order.
pub open spec fn replay_failures(ev: Seq<TraceEventKind>) -> Seq<Seq<char>>
    decreases ev.len(),
{
    if ev.len() == 0 {
        seq![]
    } else {
        let prev = replay_failures(ev.drop_last());
        match ev.last() {
            TraceEventKind::ChildRunFailed { failure, .. } => prev.push(failure.code@),
            _ => prev,
        }
    }
}

/// Everything a delegation context says, with its objective as text.
pub open spec fn context_view(d: LocalDelegationTraceContext)
    -> (RunId, RunId, Option<TraceEventId>, Option<MessageId>, Option<MessageId>, AgentId, AgentId, Seq<char>) {
    (d.parent_run_id, d.child_run_id, d.parent_trace_id, d.request_message_id, d.response_message_id,
        d.source_agent_id, d.target_agent_id, d.objective@)
}

pub open spec fn context_views(v: Seq<LocalDelegationTraceContext>)
    -> Seq<(RunId, RunId, Option<TraceEventId>, Option<MessageId>, Option<MessageId>, AgentId, AgentId, Seq<char>)> {
    v.map_values(|d: LocalDelegationTraceContext| context_view(d))
}

/// The delegation context an event carries, if it is a delegation event.
pub open spec fn delegation_context(k: TraceEventKind) -> Option<LocalDelegationTraceContext> {
    match k {
        TraceEventKind::DelegationRequested { delegation } => Some(delegation),
        TraceEventKind::DelegationRejected { delegation, .. } => Some(delegation),
        TraceEventKind::ChildRunStarted { delegation } => Some(delegation),
        TraceEventKind::ChildRunCompleted { delegation } => Some(delegation),
        TraceEventKind::ChildRunFailed { delegation, .. } => Some(delegation),
        _ => None,
    }
}

/// The first context of each distinct parent/child edge of `ev`, in order
/// of first appearance.
pub open spec fn replay_contexts(ev: Seq<TraceEventKind>)
    -> Seq<(RunId, RunId, Option<TraceEventId>, Option<MessageId>, Option<MessageId>, AgentId, AgentId, Seq<char>)>
    decreases ev.len(),
{
    if ev.len() == 0 {
        seq![]
    } else {
        let prev = replay_contexts(ev.drop_last());
        match delegation_context(ev.last()) {
            Some(d) => if replay_edges(ev.drop_last()).contains((d.parent_run_id, d.child_run_id)) { prev } else { prev.push(context_view(d)) },
            None => prev,
        }
    }
}

/// Everything a task message context says, with its schema as text.
pub open spec fn message_context_view(m: MessageTraceContext) -> (MessageId, AgentId, AgentId, RunId, Seq<char>) {
    (m.message_id, m.source_agent_id, m.target_agent_id, m.run_id, m.schema@)
}

/// The context an event carries of a task message.
pub open spec fn task_message_context(k: TraceEventKind) -> Option<MessageTraceContext> {
    match k {
        TraceEventKind::MessageQueued { message } => if is_task_schema(message.schema@) { Some(message) } else { None },
        TraceEventKind::MessageDelivered { message } => if is_task_schema(message.schema@) { Some(message) } else { None },
        TraceEventKind::MessageConsumed { message } => if is_task_schema(message.schema@) { Some(message) } else { None },
        _ => None,
    }
}

/// The first context of each distinct task message of `ev`, in order of
/// first appearance.
pub open spec fn replay_message_contexts(ev: Seq<TraceEventKind>) -> Seq<(MessageId, AgentId, AgentId, RunId, Seq<char>)>
    decreases ev.len(),
{
    if ev.len() == 0 {
        seq![]
    } else {
        let prev = replay_message_contexts(ev.drop_last());
        match task_message_context(ev.last()) {
            Some(m) => if replay_messages(ev.drop_last()).contains(m.message_id) { prev } else { prev.push(message_context_view(m)) },
            None => prev,
        }
    }
}

/// Everything a failure says, with its texts as text.
pub open spec fn failure_view(f: TaskFailure) -> (Seq<char>, Seq<char>, bool, Option<TraceEventId>) {
    (f.code@, f.message@, f.retryable, f.trace_id)
}

/// The child failures of `ev`, in order.
pub open spec fn replay_failure_views(ev: Seq<TraceEventKind>) -> Seq<(Seq<char>, Seq<char>, bool, Option<TraceEventId>)>
    decreases ev.len(),
{
    if ev.len() == 0 {
        seq![]
    } else {
        let prev = replay_failure_views(ev.drop_last());
        match ev.last() {
            TraceEventKind::ChildRunFailed { failure, .. } => prev.push(failure_view(failure)),
            _ => prev,
        }
    }
}

pub open spec fn kinds(events: Seq<crate::trace::TraceEvent>) -> Seq<TraceEventKind> {
    events.map_values(|e: crate::trace::TraceEvent| e.kind)
}

pub open spec fn edges_of(v: Seq<LocalDelegationTraceContext>) -> Seq<(RunId, RunId)> {
    v.map_values(|d: LocalDelegationTraceContext| (d.parent_run_id, d.child_run_id))
}

pub open spec fn ids_of(v: Seq<MessageTraceContext>) -> Seq<MessageId> {
    v.map_values(|m: MessageTraceContext| m.message_id)
}

pub open spec fn codes_of(v: Seq<TaskFailure>) -> Seq<Seq<char>> {
    v.map_values(|f: TaskFailure| f.code@)
}

fn copy_context(d: &LocalDelegationTraceContext) -> (r: LocalDelegationTraceContext)
    ensures
        r.parent_run_id == d.parent_run_id,
        r.child_run_id == d.child_run_id,
        r.parent_trace_id == d.parent_trace_id,
        r.request_message_id == d.request_message_id,
        r.response_message_id == d.response_message_id,
        r.source_agent_id == d.source_agent_id,
        r.target_agent_id == d.target_agent_id,
        r.objective@ == d.objective@,
{
    LocalDelegationTraceContext {
        parent_run_id: d.parent_run_id,
        child_run_id: d.child_run_id,
        parent_trace_id: d.parent_trace_id,
        request_message_id: d.request_message_id,
        response_message_id: d.response_message_id,
        source_agent_id: d.source_agent_id,
        target_agent_id: d.target_agent_id,
        objective: d.objective.clone(),
    }
}

fn copy_message_context(m: &MessageTraceContext) -> (r: MessageTraceContext)
    ensures
        r.message_id == m.message_id,
        r.source_agent_id == m.source_agent_id,
        r.target_agent_id == m.target_agent_id,
        r.run_id == m.run_id,
        r.schema@ == m.schema@,
{
    MessageTraceContext {
        message_id: m.message_id,
        source_agent_id: m.source_agent_id,
        target_agent_id: m.target_agent_id,
        run_id: m.run_id,
        schema: m.schema.clone(),
    }
}

fn contains_edge(v: &Vec<(RunId, RunId)>, e: (RunId, RunId)) -> (r: bool)
    ensures
        r == v@.contains(e),
{
    let mut i: usize = 0;
    while i < v.len()
        invariant
            i <= v@.len(),
            forall|j: int| 0 <= j < i ==> v@[j] != e,
        decreases v@.len() - i,
    {
        if v[i].0 == e.0 && v[i].1 == e.1 {
            assert(v@[i as int] == e);
            return true;
        }
        i = i + 1;
    }
    false
}

fn contains_id(v: &Vec<MessageId>, m: MessageId) -> (r: bool)
    ensures
        r == v@.contains(m),
{
    let mut i: usize = 0;
    while i < v.len()
        invariant
            i <= v@.len(),
            forall|j: int| 0 <= j < i ==> v@[j] != m,
        decreases v@.len() - i,
    {
        if v[i] == m {
            assert(v@[i as int] == m);
            return true;
        }
        i = i + 1;
    }
    false
}

fn is_task_schema_exec(schema: &String) -> (r: bool)
    ensures
        r == is_task_schema(schema@),
{
    let a = String::from_str(TASK_REQUEST_SCHEMA);
    let b = String::from_str(TASK_RESPONSE_SCHEMA);
    *schema == a || *schema == b
}

/// Reconstructs parent/child relationships, task messages and child
/// failures from trace events, without running anything: each edge and each
/// task message once, in order of first appearance; every failure.
pub fn replay_local_delegations(events: &[crate::trace::TraceEvent]) -> (r: LocalDelegationReplay)
    ensures
        edges_of(r.delegations@) == replay_edges(kinds(events@)),
        ids_of(r.messages@) == replay_messages(kinds(events@)),
        codes_of(r.failures@) == replay_failures(kinds(events@)),
        context_views(r.delegations@) == replay_contexts(kinds(events@)),
        r.messages@.map_values(|m: MessageTraceContext| message_context_view(m)) == replay_message_contexts(kinds(events@)),
        r.failures@.map_values(|f: TaskFailure| failure_view(f)) == replay_failure_views(kinds(events@)),
{
    let mut delegations: Vec<LocalDelegationTraceContext> = Vec::new();
    let mut messages: Vec<MessageTraceContext> = Vec::new();
    let mut failures: Vec<TaskFailure> = Vec::new();
    let mut seen_edges: Vec<(RunId, RunId)> = Vec::new();
    let mut seen_messages: Vec<MessageId> = Vec::new();
    let mut i: usize = 0;
    while i < events.len()
        invariant
            i <= events@.len(),
            seen_edges@ == replay_edges(kinds(events@).take(i as int)),
            edges_of(delegations@) == seen_edges@,
            seen_messages@ == replay_messages(kinds(events@).take(i as int)),
            ids_of(messages@) == seen_messages@,
            codes_of(failures@) == replay_failures(kinds(events@).take(i as int)),
            context_views(delegations@) == replay_contexts(kinds(events@).take(i as int)),
            messages@.map_values(|m: MessageTraceContext| message_context_view(m)) == replay_message_contexts(kinds(events@).take(i as int)),
            failures@.map_values(|f: TaskFailure| failure_view(f)) == replay_failure_views(kinds(events@).take(i as int)),
        decreases events@.len() - i,
    {
        let ghost pre = kinds(events@).take(i as int + 1);
        assert(pre.drop_last() =~= kinds(events@).take(i as int));
        assert(pre.last() == events@[i as int].kind);
        let ghost d0 = delegations@;
        let ghost m0 = messages@;
        let ghost f0 = failures@;
        let edge_context: Option<&LocalDelegationTraceContext> = match &events[i].kind {
            TraceEventKind::DelegationRequested { delegation } => Some(delegation),
            TraceEventKind::DelegationRejected { delegation, .. } => Some(delegation),
            TraceEventKind::ChildRunStarted { delegation } => Some(delegation),
            TraceEventKind::ChildRunCompleted { delegation } => Some(delegation),
            TraceEventKind::ChildRunFailed { delegation, .. } => Some(delegation),
            _ => None,
        };
        if let Some(d) = edge_context {
            let e = (d.parent_run_id, d.child_run_id);
            if !contains_edge(&seen_edges, e) {
                seen_edges.push(e);
                delegations.push(copy_context(d));
                assert(edges_of(delegations@) =~= edges_of(d0).push(e));
                assert(context_views(delegations@) =~= context_views(d0).push(context_view(*d)));
            }
        }
        if let TraceEventKind::ChildRunFailed { failure, .. } = &events[i].kind {
            failures.push(copy_failure(failure));
            assert(codes_of(failures@) =~= codes_of(f0).push(failure.code@));
            assert(failures@.map_values(|f: TaskFailure| failure_view(f))
                =~= f0.map_values(|f: TaskFailure| failure_view(f)).push(failure_view(*failure)));
        }
        let message_context: Option<&MessageTraceContext> = match &events[i].kind {
            TraceEventKind::MessageQueued { message } => Some(message),
            TraceEventKind::MessageDelivered { message } => Some(message),
            TraceEventKind::MessageConsumed { message } => Some(message),
            _ => None,
        };
        if let Some(m) = message_context {
            if is_task_schema_exec(&m.schema) && !contains_id(&seen_messages, m.message_id) {
                seen_messages.push(m.message_id);
                messages.push(copy_message_context(m));
                assert(ids_of(messages@) =~= ids_of(m0).push(m.message_id));
                assert(messages@.map_values(|x: MessageTraceContext| message_context_view(x))
                    =~= m0.map_values(|x: MessageTraceContext| message_context_view(x)).push(message_context_view(*m)));
            }
        }
        i = i + 1;
    }
    assert(kinds(events@).take(events@.len() as int) =~= kinds(events@));
    LocalDelegationReplay { delegations, messages, failures }
}

} // verus!
