//! The loop engine runs one agent tick: collect percepts, ask the policy,
//! evaluate constraints, send each proposed action through delegated-scope
//! checks and the gateway, apply escalations, record outcomes and commit the
//! next state, emitting the ordered trace of the tick.

use vstd::prelude::*;
use crate::action::Action;
use crate::approval::ApprovalEvidence;
use crate::clock::{Timestamp, now_utc};
use crate::escalation::{EscalationContext, EscalationEvaluator, EscalationOutcomeInput, EscalationPolicy, apply_escalation_to_outcome, escalations_require_intervention, verification_json};
use crate::gateway::{ActionGateway, ActionOutcome, ActionRequest, ActionStatus, GatewayError, joined, join_strings};
use crate::ids::{ActionId, StateNodeId, TraceEventId};
use crate::json::{Json, copy_json, json_get, json_str};
use crate::quota::QuotaUsage;
use crate::state::{StateCommit, StateData, StateGraph, StateGraphError, StateMetadata, StateStore, WorkOrderAuthorization};
use crate::tenancy::{AgentContext, metadata_updated};
use crate::textual::{uuid_text, uuid_string};
use crate::trace::{KernelRuntime, KernelRuntimeConfig, TraceError, TraceEvent, TraceEventKind, TraceIdentity, TraceSink, resume_sequence};
use crate::verification::{VerificationResult, strs, copy_strings};

verus! {

/// Where a percept came from.
#[derive(Clone, Debug)]
pub struct PerceptProvenance {
    pub source: String,
    pub detail: Option<String>,
}

/// Something an agent perceived: a payload of a named schema.
#[derive(Clone, Debug)]
pub struct Percept {
    pub schema: String,
    pub payload: Json,
    pub provenance: PerceptProvenance,
    pub timestamp: Timestamp,
}

/// Why a tick failed.
#[derive(Debug)]
pub enum LoopError {
    Trace(TraceError),
    StateGraph(StateGraphError),
    TraceStore(String),
    TraceParse(String),
    Resume(String),
    Policy(String),
    Perceptor(String),
}

/// The description of a loop error.
pub open spec fn loop_error_text(e: LoopError) -> Seq<char> {
    match e {
        LoopError::Trace(t) => "trace error: "@ + crate::trace::trace_error_text(t),
        LoopError::StateGraph(g) => "state graph error: "@ + crate::state::state_graph_error_text(g),
        LoopError::TraceStore(d) => "trace store error: "@ + d@,
        LoopError::TraceParse(d) => "trace parse error: "@ + d@,
        LoopError::Resume(d) => "resume error: "@ + d@,
        LoopError::Policy(d) => "policy error: "@ + d@,
        LoopError::Perceptor(d) => "perceptor error: "@ + d@,
    }
}

impl LoopError {
    /// Human-readable description.
    pub fn message(&self) -> (r: String)
        ensures
            r@ == loop_error_text(*self),
    {
        match self {
            LoopError::Trace(e) => {
                let d = e.message();
                String::from_str("trace error: ").concat(d.as_str())
            },
            LoopError::StateGraph(e) => {
                let d = e.message();
                String::from_str("state graph error: ").concat(d.as_str())
            },
            LoopError::TraceStore(d) => String::from_str("trace store error: ").concat(d.as_str()),
            LoopError::TraceParse(d) => String::from_str("trace parse error: ").concat(d.as_str()),
            LoopError::Resume(d) => String::from_str("resume error: ").concat(d.as_str()),
            LoopError::Policy(d) => String::from_str("policy error: ").concat(d.as_str()),
            LoopError::Perceptor(d) => String::from_str("perceptor error: ").concat(d.as_str()),
        }
    }
}

/// Collects percepts for a tick; implemented by the engine's users.
pub trait Perceptor {
    fn collect(&self, agent: &AgentContext) -> Result<Vec<Percept>, LoopError>;
}

/// Proposes actions and the next state; implemented by the engine's users.
pub trait Policy {
    fn name(&self) -> String;

    fn decide(&self, state: &StateData, percepts: &[Percept]) -> Result<PolicyDecision, LoopError>;
}

/// The constraints evaluated for a tick and their combined verdict.
#[derive(Debug)]
pub struct ConstraintEvaluation {
    pub constraints: Vec<String>,
    pub result: VerificationResult,
}

impl ConstraintEvaluation {
    /// No constraints, allowed.
    pub fn allow() -> (r: ConstraintEvaluation)
        ensures
            r.constraints@.len() == 0,
            r.result.allowed,
            r.result.reasons@.len() == 0,
    {
        ConstraintEvaluation { constraints: Vec::new(), result: VerificationResult::allow() }
    }
}

/// Evaluates constraints over a tick's state, percepts and proposals;
/// implemented by the engine's users.
pub trait ConstraintEngine {
    fn evaluate(&self, state: &StateData, percepts: &[Percept], actions: &[ActionCandidate]) -> ConstraintEvaluation;
}

/// Allows everything.
pub struct AllowAllConstraintEngine;

impl ConstraintEngine for AllowAllConstraintEngine {
    fn evaluate(&self, state: &StateData, percepts: &[Percept], actions: &[ActionCandidate]) -> (r: ConstraintEvaluation)
        ensures
            r.result.allowed,
            r.result.reasons@.len() == 0,
    {
        ConstraintEvaluation::allow()
    }
}

/// Feedback and reward derived from an outcome.
#[derive(Clone, Debug)]
pub struct OutcomeSignal {
    pub feedback: Option<String>,
    pub reward: Option<i64>,
}

/// Turns outcomes into signals; implemented by the engine's users.
pub trait OutcomeEvaluator {
    fn evaluate(&self, action: &Action, outcome: &ActionOutcome) -> OutcomeSignal;
}

/// Emits no signals.
pub struct NoopOutcomeEvaluator;

impl OutcomeEvaluator for NoopOutcomeEvaluator {
    fn evaluate(&self, action: &Action, outcome: &ActionOutcome) -> (r: OutcomeSignal)
        ensures
            r.feedback is None,
            r.reward is None,
    {
        OutcomeSignal { feedback: None, reward: None }
    }
}

/// A proposed action with its adapter, quota estimate, satisfied
/// preconditions and approval evidence.
#[derive(Debug)]
pub struct ActionCandidate {
    pub action: Action,
    pub adapter: Option<String>,
    pub usage: QuotaUsage,
    pub satisfied_preconditions: Vec<String>,
    pub approval_evidence: Option<ApprovalEvidence>,
}

impl ActionCandidate {
    /// A candidate with no adapter, one action of usage, and the action's own
    /// preconditions taken as satisfied.
    pub fn new(action: Action) -> (r: ActionCandidate)
        ensures
            r.action == action,
            r.adapter is None,
            r.usage == (QuotaUsage { actions: 1, ..crate::quota::zero_usage() }),
            strs(r.satisfied_preconditions@) == strs(action.preconditions@),
            r.approval_evidence is None,
    {
        let satisfied_preconditions = copy_strings(&action.preconditions);
        ActionCandidate {
            action,
            adapter: None,
            usage: QuotaUsage::single_action(),
            satisfied_preconditions,
            approval_evidence: None,
        }
    }

    pub fn with_adapter(self, adapter: String) -> (r: ActionCandidate)
        ensures
            r == (ActionCandidate { adapter: Some(adapter), ..self }),
    {
        ActionCandidate { adapter: Some(adapter), ..self }
    }

    pub fn with_usage(self, usage: QuotaUsage) -> (r: ActionCandidate)
        ensures
            r == (ActionCandidate { usage, ..self }),
    {
        ActionCandidate { usage, ..self }
    }

    pub fn with_satisfied_preconditions(self, preconditions: Vec<String>) -> (r: ActionCandidate)
        ensures
            r == (ActionCandidate { satisfied_preconditions: preconditions, ..self }),
    {
        ActionCandidate { satisfied_preconditions: preconditions, ..self }
    }

    pub fn with_approval_evidence(self, evidence: ApprovalEvidence) -> (r: ActionCandidate)
        ensures
            r == (ActionCandidate { approval_evidence: Some(evidence), ..self }),
    {
        ActionCandidate { approval_evidence: Some(evidence), ..self }
    }
}

/// What a policy decided: actions to try and the next state.
#[derive(Debug)]
pub struct PolicyDecision {
    pub actions: Vec<ActionCandidate>,
    pub next_state: StateData,
    pub metadata: StateMetadata,
}

impl PolicyDecision {
    /// A decision whose state metadata carries `label` and the current time.
    pub fn new(actions: Vec<ActionCandidate>, next_state: StateData, label: Option<String>) -> (r: PolicyDecision)
        ensures
            r.actions == actions,
            r.next_state == next_state,
            r.metadata.label == label,
            r.metadata.tenant_id is None,
            r.metadata.agent_id is None,
            r.metadata.run_id is None,
            r.metadata.trace_event_id is None,
    {
        PolicyDecision { actions, next_state, metadata: StateMetadata::new(now_utc(), label) }
    }
}

/// Where a tick resumes.
#[derive(Clone, Copy, Debug)]
pub struct ResumeInfo {
    pub snapshot_id: crate::state::SnapshotId,
    pub tick_id: u64,
}

/// What a persisted run binds to: the run to bind or resume and, when one
/// authorized it, the validated work order.
#[derive(Clone, Debug)]
pub struct RunTraceContext {
    pub run_id: Option<crate::ids::RunId>,
    pub work_order: Option<WorkOrderAuthorization>,
}

impl RunTraceContext {
    /// A context for a run without work-order authority.
    pub fn new(run_id: Option<crate::ids::RunId>) -> (r: RunTraceContext)
        ensures
            r.run_id == run_id,
            r.work_order is None,
    {
        RunTraceContext { run_id, work_order: None }
    }

    /// The same context carrying `work_order`.
    pub fn with_work_order(self, work_order: WorkOrderAuthorization) -> (r: RunTraceContext)
        ensures
            r.run_id == self.run_id,
            r.work_order == Some(work_order),
    {
        RunTraceContext { work_order: Some(work_order), ..self }
    }
}

/// The events a persisted run opens with: `RunStarted` when the store held
/// no event of the run, then `WorkOrderAccepted` when a work order came.
pub open spec fn opening_events(latest_sequence: Option<u64>, work_order: Option<WorkOrderAuthorization>) -> Seq<TraceEventKind> {
    let started: Seq<TraceEventKind> = if latest_sequence is None { seq![TraceEventKind::RunStarted] } else { seq![] };
    match work_order {
        Some(w) => started.push(TraceEventKind::WorkOrderAccepted {
            work_order_id: w.work_order_id,
            tenant_id: w.tenant_id,
            agent_id: w.agent_id,
            run_id: w.run_id,
        }),
        None => started,
    }
}

/// What a tick produced.
#[derive(Debug)]
pub struct TickOutcome {
    pub tick_id: u64,
    pub action_outcomes: Vec<ActionOutcome>,
    pub state_commit: StateCommit,
    pub duration_ms: u64,
    pub needs_intervention: bool,
    pub needs_approval: bool,
}

/// A failed outcome for an action the gateway refused with an error.
pub fn outcome_from_gateway_error(action_id: ActionId, error: &GatewayError) -> (r: ActionOutcome)
    ensures
        r.action_id == action_id,
        r.status == ActionStatus::Failed,
        !r.verification.allowed,
        r.verification.reasons@.len() == 1,
        r.post_verification is None,
        r.output is None,
        r.error matches Some(e) && e@ == strs(r.verification.reasons@)[0],
{
    let message = error.message();
    let mut reasons2: Vec<String> = Vec::new();
    reasons2.push(message.clone());
    ActionOutcome {
        action_id,
        status: ActionStatus::Failed,
        verification: VerificationResult { allowed: false, reasons: reasons2, artifacts: Json::Null },
        post_verification: None,
        output: None,
        error: Some(message),
        completed_at: now_utc(),
    }
}

/// A denial decided before the gateway: constraints or delegated scope
/// refused the action; the error lists the refusing result's reasons.
pub fn denied_before_gateway(action_id: ActionId, result: &VerificationResult) -> (r: ActionOutcome)
    ensures
        r.action_id == action_id,
        r.status == ActionStatus::Denied,
        r.verification.allowed == result.allowed,
        strs(r.verification.reasons@) == strs(result.reasons@),
        r.post_verification is None,
        r.output is None,
        r.error matches Some(e) && e@ == joined(strs(result.reasons@), ", "@),
{
    ActionOutcome {
        action_id,
        status: ActionStatus::Denied,
        verification: result.duplicate(),
        post_verification: None,
        output: None,
        error: Some(join_strings(&result.reasons, ", ")),
        completed_at: now_utc(),
    }
}

/// The tick needs intervention when an escalation asks for it, an outcome
/// needs intervention, or a post-verification denied.
pub open spec fn intervention_needed(escalation_needs: bool, outcomes: Seq<ActionOutcome>) -> bool {
    ||| escalation_needs
    ||| exists|i: int| 0 <= i < outcomes.len() && ((#[trigger] outcomes[i]).status == ActionStatus::NeedsIntervention
            || (outcomes[i].post_verification matches Some(p) && !p.allowed))
}

/// A tick needs intervention as soon as one of its outcomes needs it
/// itself, or carries a post-verification that refused (an action that ran
/// but did not reach its postconditions), whatever the escalations said.
pub proof fn law_refused_postcondition_needs_intervention(escalation_needs: bool, outcomes: Seq<ActionOutcome>, i: int)
    requires
        0 <= i < outcomes.len(),
        (outcomes[i].post_verification matches Some(p) && !p.allowed)
            || outcomes[i].status == ActionStatus::NeedsIntervention,
    ensures
        intervention_needed(escalation_needs, outcomes),
{
}

/// The tick paused for approval when an outcome needs approval.
pub open spec fn approval_needed(outcomes: Seq<ActionOutcome>) -> bool {
    exists|i: int| 0 <= i < outcomes.len() && (#[trigger] outcomes[i]).status == ActionStatus::NeedsApproval
}

pub fn tick_needs_intervention(escalations: &[EscalationContext], outcomes: &Vec<ActionOutcome>) -> (r: bool)
    ensures
        r == intervention_needed(
            exists|i: int| 0 <= i < escalations@.len() && (#[trigger] escalations@[i]).decision.intervention(),
            outcomes@,
        ),
        // An outcome whose post-verification refused, or that itself needs
        // intervention, makes the tick need intervention.
        forall|i: int| 0 <= i < outcomes@.len() && (#[trigger] outcomes@[i].post_verification matches Some(p) && !p.allowed) ==> r,
        forall|i: int| 0 <= i < outcomes@.len() && (#[trigger] outcomes@[i]).status == ActionStatus::NeedsIntervention ==> r,
{
    if escalations_require_intervention(escalations) {
        return true;
    }
    let mut i: usize = 0;
    while i < outcomes.len()
        invariant
            i <= outcomes@.len(),
            forall|k: int| 0 <= k < i ==> !((#[trigger] outcomes@[k]).status == ActionStatus::NeedsIntervention
                || (outcomes@[k].post_verification matches Some(p) && !p.allowed)),
        decreases outcomes@.len() - i,
    {
        let o = &outcomes[i];
        let post_denied = match &o.post_verification {
            Some(p) => !p.allowed,
            None => false,
        };
        if o.status == ActionStatus::NeedsIntervention || post_denied {
            return true;
        }
        i = i + 1;
    }
    false
}

pub fn tick_needs_approval(outcomes: &Vec<ActionOutcome>) -> (r: bool)
    ensures
        r == approval_needed(outcomes@),
{
    let mut i: usize = 0;
    while i < outcomes.len()
        invariant
            i <= outcomes@.len(),
            forall|k: int| 0 <= k < i ==> (#[trigger] outcomes@[k]).status != ActionStatus::NeedsApproval,
        decreases outcomes@.len() - i,
    {
        if outcomes[i].status == ActionStatus::NeedsApproval {
            return true;
        }
        i = i + 1;
    }
    false
}

/// The trace event an approval status maps to.
pub open spec fn approval_kind_for(status: Seq<char>, k: TraceEventKind) -> bool {
    if status == "required"@ {
        k is ApprovalRequested
    } else if status == "granted"@ {
        k is ApprovalGranted
    } else if status == "expired"@ {
        k matches TraceEventKind::ApprovalExpired { reason, .. } && reason@ == "approval_expired"@
    } else if status == "revoked"@ {
        k matches TraceEventKind::ApprovalRevoked { reason, .. } && reason@ == "approval_revoked"@
    } else if status == "intervention_required"@ {
        k matches TraceEventKind::ApprovalDenied { reason, .. } && reason@ == "approval_policy_expired"@
    } else {
        k matches TraceEventKind::ApprovalDenied { reason, .. } && reason@ == "approval_denied"@
    }
}

/// Maps an approval status to its trace event.
pub fn approval_trace_kind(status: &String, approval: Json) -> (r: TraceEventKind)
    ensures
        approval_kind_for(status@, r),
{
    let required = String::from_str("required");
    let granted = String::from_str("granted");
    let expired = String::from_str("expired");
    let revoked = String::from_str("revoked");
    let intervention = String::from_str("intervention_required");
    if *status == required {
        TraceEventKind::ApprovalRequested { approval }
    } else if *status == granted {
        TraceEventKind::ApprovalGranted { approval }
    } else if *status == expired {
        TraceEventKind::ApprovalExpired { approval, reason: String::from_str("approval_expired") }
    } else if *status == revoked {
        TraceEventKind::ApprovalRevoked { approval, reason: String::from_str("approval_revoked") }
    } else if *status == intervention {
        TraceEventKind::ApprovalDenied { approval, reason: String::from_str("approval_policy_expired") }
    } else {
        TraceEventKind::ApprovalDenied { approval, reason: String::from_str("approval_denied") }
    }
}

/// The approval evidence of a result and its status: the `approval`
/// artifact, else the `approval_context` one; when that artifact wraps an
/// `approval`, its own `approval_status` names the status, otherwise the
/// result's top-level `approval_status` does; `unknown` when absent.
pub open spec fn approval_artifact_spec(artifacts: Json) -> Option<(Seq<char>, Json)> {
    let a = if json_get(artifacts, "approval"@) is Some { json_get(artifacts, "approval"@) } else { json_get(artifacts, "approval_context"@) };
    match a {
        None => None,
        Some(art) => match json_get(art, "approval"@) {
            Some(inner) => Some((
                match json_get(art, "approval_status"@) { Some(s) => match json_str(s) { Some(t) => t, None => "unknown"@ }, None => "unknown"@ },
                inner,
            )),
            None => Some((
                match json_get(artifacts, "approval_status"@) { Some(s) => match json_str(s) { Some(t) => t, None => "unknown"@ }, None => "unknown"@ },
                art,
            )),
        },
    }
}

fn status_text_of(j: Option<&Json>) -> (r: String)
    ensures
        r@ == (match j { Some(s) => match json_str(*s) { Some(t) => t, None => "unknown"@ }, None => "unknown"@ }),
{
    match j {
        Some(Json::Str(t)) => t.clone(),
        _ => String::from_str("unknown"),
    }
}

pub fn approval_artifact(result: &VerificationResult) -> (r: Option<(String, Json)>)
    ensures
        r is Some <==> approval_artifact_spec(result.artifacts) is Some,
        r matches Some(p) ==> p.0@ == approval_artifact_spec(result.artifacts).unwrap().0,
{
    let approval_key = String::from_str("approval");
    let context_key = String::from_str("approval_context");
    let status_key = String::from_str("approval_status");
    let artifact = match result.artifacts.get(&approval_key) {
        Some(a) => a,
        None => match result.artifacts.get(&context_key) {
            Some(a) => a,
            None => return None,
        },
    };
    match artifact.get(&approval_key) {
        Some(inner) => {
            let status = status_text_of(artifact.get(&status_key));
            Some((status, copy_json(inner)))
        },
        None => {
            let status = status_text_of(result.artifacts.get(&status_key));
            Some((status, copy_json(artifact)))
        },
    }
}

/// The denial recorded for a failed action: a denying post-verification,
/// else a denial carrying the outcome's error (or `action_failed`).
pub fn failure_denial(outcome: &ActionOutcome) -> (r: VerificationResult)
    ensures
        !r.allowed,
        (outcome.post_verification matches Some(p) && !p.allowed) ==> strs(r.reasons@) == strs(outcome.post_verification.unwrap().reasons@),
        !(outcome.post_verification matches Some(p) && !p.allowed) ==> strs(r.reasons@) == seq![
            match outcome.error { Some(e) => e@, None => "action_failed"@ }
        ],
{
    match &outcome.post_verification {
        Some(p) => {
            if !p.allowed {
                return p.duplicate();
            }
        },
        None => {},
    }
    let text = failure_error(outcome);
    let mut reasons: Vec<String> = Vec::new();
    reasons.push(text);
    proof { assert(strs(reasons@) =~= seq![reasons@[0]@]); }
    VerificationResult { allowed: false, reasons, artifacts: Json::Null }
}

fn failure_error(outcome: &ActionOutcome) -> (r: String)
    ensures
        r@ == (match outcome.error { Some(e) => e@, None => "action_failed"@ }),
{
    match &outcome.error {
        Some(e) => e.clone(),
        None => String::from_str("action_failed"),
    }
}

#[verifier::external_type_specification]
#[verifier::external_body]
pub struct ExInstant(std::time::Instant);

/// Reads the monotonic clock (`std::time::Instant::now`); nothing is promised
/// about the value.
#[verifier::external_body]
pub(crate) fn instant_now() -> (r: std::time::Instant) {
    std::time::Instant::now()
}

/// The time passed since `start` (`std::time::Instant::elapsed`); nothing is
/// promised about the value.
#[verifier::external_body]
fn instant_elapsed(start: &std::time::Instant) -> (r: std::time::Duration) {
    start.elapsed()
}

/// The whole nanoseconds of a duration (`std::time::Duration::as_nanos`);
/// nothing is promised about the value of a measured duration.
#[verifier::external_body]
fn duration_as_nanos(d: &std::time::Duration) -> (r: u128) {
    d.as_nanos()
}

/// Whole milliseconds since `start`, truncated to `u64`.
fn elapsed_millis(start: &std::time::Instant) -> (r: u64) {
    let nanos = duration_as_nanos(&instant_elapsed(start));
    (nanos / 1_000_000) as u64
}

/// Nanoseconds since `start`, truncated to `i128`.
pub(crate) fn elapsed_nanos(start: &std::time::Instant) -> (r: i128) {
    let nanos = duration_as_nanos(&instant_elapsed(start));
    nanos as i128
}

/// `b` starts with `a`.
pub open spec fn extends<T>(a: Seq<T>, b: Seq<T>) -> bool {
    b.len() >= a.len() && forall|i: int| 0 <= i < a.len() ==> #[trigger] b[i] == a[i]
}

/// The seven events that open a tick, from position `e0` of `tr`: tick
/// started, percepts received, the state loaded from `head`, the policy
/// invoked and completed, `candidates` actions proposed, constraints
/// evaluated.
pub open spec fn opening_ok(tr: Seq<TraceEventKind>, e0: int, head: Option<StateNodeId>, candidates: nat) -> bool {
    &&& tr.len() >= e0 + 7
    &&& tr[e0] is LoopTickStarted
    &&& tr[e0 + 1] is PerceptsReceived
    &&& tr[e0 + 2] == (TraceEventKind::StateLoaded { state_node_id: head })
    &&& (tr[e0 + 3] matches TraceEventKind::PolicyInvoked { policy: p }
        && tr[e0 + 4] == (TraceEventKind::PolicyCompleted { policy: p }))
    &&& (tr[e0 + 5] matches TraceEventKind::CandidatesProposed { actions } && actions@.len() == candidates)
    &&& tr[e0 + 6] is ConstraintsEvaluated
}

/// An action refused by its delegated authority.
pub open spec fn scope_refuses(agent: AgentContext, c: ActionCandidate) -> bool {
    crate::tenancy::delegated_reasons(agent.delegated_authority, c.action.name@,
        crate::escalation::opt_string_view(c.adapter), strs(c.action.required_permissions@)).len() > 0
}

/// Two actions say the same thing.
pub open spec fn action_same(a: Action, b: Action) -> bool {
    &&& a.name@ == b.name@
    &&& crate::json::json_same(a.params, b.params)
    &&& a.side_effect_class == b.side_effect_class
    &&& strs(a.required_permissions@) == strs(b.required_permissions@)
    &&& strs(a.preconditions@) == strs(b.preconditions@)
    &&& strs(a.postconditions@) == strs(b.postconditions@)
}

/// `q` is the request the engine hands the gateway for candidate `c` as
/// action `action_id` of `agent` in `run`: the agent's own tenant and
/// identity, the run, and the candidate's action, adapter, usage, satisfied
/// preconditions and approval evidence.
pub open spec fn request_for(q: ActionRequest, action_id: ActionId, agent: AgentContext, run: crate::ids::RunId, c: ActionCandidate) -> bool {
    &&& q.action_id == action_id
    &&& q.tenant_id == agent.tenant_id
    &&& q.agent_id == agent.agent_id
    &&& q.run_id == run
    &&& action_same(q.action, c.action)
    &&& crate::approval::same_opt_text(q.adapter, c.adapter)
    &&& q.quota_usage == c.usage
    &&& strs(q.satisfied_preconditions@) == strs(c.satisfied_preconditions@)
    &&& match (q.approval_evidence, c.approval_evidence) {
        (Some(x), Some(y)) => crate::approval::evidence_same(x, y),
        (None, None) => true,
        _ => false,
    }
}

/// The request for candidate `candidate` as action `action_id` of `agent`
/// in `run_id`, stamped `requested_at`.
pub fn candidate_request(action_id: ActionId, agent: &AgentContext, run_id: crate::ids::RunId, candidate: &ActionCandidate,
    requested_at: Timestamp) -> (r: ActionRequest)
    ensures
        request_for(r, action_id, *agent, run_id, *candidate),
        r.requested_at == requested_at,
{
    let approval_evidence = match &candidate.approval_evidence {
        Some(e) => Some(e.duplicate()),
        None => None,
    };
    let adapter = match &candidate.adapter {
        Some(a) => Some(a.clone()),
        None => None,
    };
    ActionRequest {
        action_id,
        tenant_id: agent.tenant_id,
        agent_id: agent.agent_id,
        run_id,
        action: candidate.action.duplicate(),
        adapter,
        quota_usage: candidate.usage,
        satisfied_preconditions: copy_strings(&candidate.satisfied_preconditions),
        requested_at,
        approval_evidence,
    }
}

/// Every request in `s` from position `from` on is `agent`'s own request in
/// `run`.
pub open spec fn own_requests(s: Seq<ActionRequest>, from: int, agent: AgentContext, run: crate::ids::RunId) -> bool {
    forall|j: int| from <= j < s.len() ==> (#[trigger] s[j]).tenant_id == agent.tenant_id
        && s[j].agent_id == agent.agent_id && s[j].run_id == run
}

/// Candidate `cand` passes the tick's constraint verdict `c` and the
/// agent's delegated authority, and so is handed to the gateway.
pub open spec fn admitted(agent: AgentContext, c: VerificationResult, cand: ActionCandidate) -> bool {
    c.allowed && !scope_refuses(agent, cand)
}

/// How many of `acts` are admitted.
pub open spec fn admitted_count(agent: AgentContext, c: VerificationResult, acts: Seq<ActionCandidate>) -> nat
    decreases acts.len(),
{
    if acts.len() == 0 {
        0
    } else {
        admitted_count(agent, c, acts.drop_last()) + if admitted(agent, c, acts.last()) { 1nat } else { 0nat }
    }
}

/// The reasons a refused candidate is refused with: the constraint verdict's
/// when it refuses, else the delegated authority's.
pub open spec fn refusal_reasons(agent: AgentContext, c: VerificationResult, cand: ActionCandidate) -> Seq<Seq<char>> {
    if !c.allowed {
        strs(c.reasons@)
    } else {
        crate::tenancy::delegated_reasons(agent.delegated_authority, cand.action.name@,
            crate::escalation::opt_string_view(cand.adapter), strs(cand.action.required_permissions@))
    }
}

/// The candidates `acts` of tick `tick_id` were handled in order: each
/// admitted candidate was handed to the gateway as the agent's own request,
/// in candidate order, as `subs`; each refused one was answered, without the
/// gateway, with a denial (or an intervention) that carries its refusal.
pub open spec fn candidates_handled(agent: AgentContext, run: crate::ids::RunId, tick_id: u64, c: VerificationResult,
    acts: Seq<ActionCandidate>, outcomes: Seq<ActionOutcome>, subs: Seq<ActionRequest>) -> bool {
    &&& outcomes.len() == acts.len()
    &&& subs.len() == admitted_count(agent, c, acts)
    &&& forall|k: int| 0 <= k < acts.len() ==> {
        &&& admitted(agent, c, #[trigger] acts[k]) ==> request_for(subs[admitted_count(agent, c, acts.take(k)) as int],
            candidate_action_id(tick_id, k as u64), agent, run, acts[k])
        &&& !admitted(agent, c, acts[k]) ==> outcomes[k].action_id == candidate_action_id(tick_id, k as u64)
            && (outcomes[k].status == ActionStatus::Denied || outcomes[k].status == ActionStatus::NeedsIntervention)
            && extends(refusal_reasons(agent, c, acts[k]), strs(outcomes[k].verification.reasons@))
    }
}

/// `o` is the outcome the gateway's answer `a` gives: the gateway's own
/// outcome, or a failure without output for a gateway error.
pub open spec fn answer_outcome(a: Result<ActionOutcome, GatewayError>, o: ActionOutcome) -> bool {
    match a {
        Ok(x) => o == x,
        Err(_) => o.status == ActionStatus::Failed && !o.verification.allowed && o.output is None && o.post_verification is None,
    }
}

/// Without an escalation policy, candidate `cand`'s outcome `o` is what the
/// tick owes it: a refused candidate is denied with exactly the refusing
/// check's verdict, and an admitted one gets the gateway's answer `a`.
pub open spec fn settled_outcome(agent: AgentContext, c: VerificationResult, cand: ActionCandidate,
    a: Result<ActionOutcome, GatewayError>, o: ActionOutcome) -> bool {
    if admitted(agent, c, cand) {
        answer_outcome(a, o)
    } else {
        &&& o.status == ActionStatus::Denied
        &&& !o.verification.allowed
        &&& strs(o.verification.reasons@) == refusal_reasons(agent, c, cand)
        &&& o.output is None
        &&& o.post_verification is None
    }
}

/// The outcomes of `acts` settled from the gateway's answers `answers`, one
/// per admitted candidate, in order.
pub open spec fn answers_applied(agent: AgentContext, c: VerificationResult, acts: Seq<ActionCandidate>,
    outcomes: Seq<ActionOutcome>, answers: Seq<Result<ActionOutcome, GatewayError>>) -> bool {
    &&& answers.len() == admitted_count(agent, c, acts)
    &&& forall|k: int| 0 <= k < acts.len() && k < outcomes.len() ==> settled_outcome(agent, c, #[trigger] acts[k],
            answers[admitted_count(agent, c, acts.take(k)) as int], outcomes[k])
}

/// Settling candidate `i` after the first `i` extends the settled prefix.
#[verifier::rlimit(60)]
#[verifier::spinoff_prover]
proof fn lemma_answer_step(agent: AgentContext, c: VerificationResult, acts: Seq<ActionCandidate>, i: int,
    outs: Seq<ActionOutcome>, o: ActionOutcome,
    ans: Seq<Result<ActionOutcome, GatewayError>>, ans2: Seq<Result<ActionOutcome, GatewayError>>)
    requires
        0 <= i < acts.len(),
        outs.len() == i,
        answers_applied(agent, c, acts.take(i), outs, ans),
        admitted(agent, c, acts[i]) ==> ans2.len() == ans.len() + 1 && ans2.drop_last() == ans,
        !admitted(agent, c, acts[i]) ==> ans2 == ans,
        settled_outcome(agent, c, acts[i], ans2.last(), o),
    ensures
        answers_applied(agent, c, acts.take(i + 1), outs.push(o), ans2),
{
    let a0 = acts.take(i);
    let a1 = acts.take(i + 1);
    assert(a1.drop_last() =~= a0);
    assert(a1.last() == acts[i]);
    assert(admitted_count(agent, c, a1) == admitted_count(agent, c, a0) + if admitted(agent, c, acts[i]) { 1nat } else { 0nat });
    assert forall|k: int| 0 <= k < a1.len() && k < outs.push(o).len() implies settled_outcome(agent, c, #[trigger] a1[k],
        ans2[admitted_count(agent, c, a1.take(k)) as int], outs.push(o)[k]) by {
        if k < i {
            assert(a1[k] == a0[k]);
            assert(a1.take(k) =~= a0.take(k));
            assert(outs.push(o)[k] == outs[k]);
            if admitted(agent, c, a0[k]) {
                lemma_admitted_count_prefix(agent, c, a0, k);
                assert(ans2[admitted_count(agent, c, a0.take(k)) as int] == ans[admitted_count(agent, c, a0.take(k)) as int]);
            }
        } else {
            assert(k == i);
            assert(a1.take(k) =~= a0);
            assert(outs.push(o)[k] == o);
            if admitted(agent, c, acts[i]) {
                assert(ans2.last() == ans2[admitted_count(agent, c, a0) as int]);
            }
        }
    }
}

/// Handling candidate `i` after the first `i` extends the handled prefix.
#[verifier::rlimit(60)]
#[verifier::spinoff_prover]
proof fn lemma_candidate_step(agent: AgentContext, run: crate::ids::RunId, tick_id: u64, c: VerificationResult,
    acts: Seq<ActionCandidate>, i: int, outs: Seq<ActionOutcome>, o: ActionOutcome,
    subs: Seq<ActionRequest>, subs2: Seq<ActionRequest>)
    requires
        0 <= i < acts.len(),
        candidates_handled(agent, run, tick_id, c, acts.take(i), outs, subs),
        admitted(agent, c, acts[i]) ==> subs2.len() == subs.len() + 1 && subs2.drop_last() == subs
            && request_for(subs2.last(), candidate_action_id(tick_id, i as u64), agent, run, acts[i]),
        !admitted(agent, c, acts[i]) ==> subs2 == subs && o.action_id == candidate_action_id(tick_id, i as u64)
            && (o.status == ActionStatus::Denied || o.status == ActionStatus::NeedsIntervention)
            && extends(refusal_reasons(agent, c, acts[i]), strs(o.verification.reasons@)),
    ensures
        candidates_handled(agent, run, tick_id, c, acts.take(i + 1), outs.push(o), subs2),
{
    let a0 = acts.take(i);
    let a1 = acts.take(i + 1);
    assert(a1.drop_last() =~= a0);
    assert(a1.last() == acts[i]);
    assert(admitted_count(agent, c, a1) == admitted_count(agent, c, a0) + if admitted(agent, c, acts[i]) { 1nat } else { 0nat });
    assert forall|k: int| 0 <= k < a1.len() implies {
        &&& admitted(agent, c, #[trigger] a1[k]) ==> request_for(subs2[admitted_count(agent, c, a1.take(k)) as int],
            candidate_action_id(tick_id, k as u64), agent, run, a1[k])
        &&& !admitted(agent, c, a1[k]) ==> outs.push(o)[k].action_id == candidate_action_id(tick_id, k as u64)
            && (outs.push(o)[k].status == ActionStatus::Denied || outs.push(o)[k].status == ActionStatus::NeedsIntervention)
            && extends(refusal_reasons(agent, c, a1[k]), strs(outs.push(o)[k].verification.reasons@))
    } by {
        if k < i {
            assert(a1[k] == a0[k]);
            assert(a1.take(k) =~= a0.take(k));
            assert(outs.push(o)[k] == outs[k]);
            if admitted(agent, c, a0[k]) {
                lemma_admitted_count_prefix(agent, c, a0, k);
                assert(admitted_count(agent, c, a0.take(k)) < admitted_count(agent, c, a0));
                assert(subs2[admitted_count(agent, c, a0.take(k)) as int] == subs[admitted_count(agent, c, a0.take(k)) as int]);
            }
        } else {
            assert(k == i);
            assert(a1.take(k) =~= a0);
            assert(outs.push(o)[k] == o);
        }
    }
}

/// An admitted candidate is counted before the candidates that follow it.
proof fn lemma_admitted_count_prefix(agent: AgentContext, c: VerificationResult, acts: Seq<ActionCandidate>, k: int)
    requires
        0 <= k < acts.len(),
        admitted(agent, c, acts[k]),
    ensures
        admitted_count(agent, c, acts.take(k)) < admitted_count(agent, c, acts),
    decreases acts.len(),
{
    if k == acts.len() - 1 {
        assert(acts.drop_last() =~= acts.take(k));
    } else {
        lemma_admitted_count_prefix(agent, c, acts.drop_last(), k);
        assert(acts.drop_last().take(k) =~= acts.take(k));
    }
}

/// `e` is the event that records final status `st`.
pub open spec fn status_event(st: ActionStatus, e: TraceEventKind) -> bool {
    match st {
        ActionStatus::Executed => e is ActionExecuted,
        ActionStatus::Denied => e is ActionDenied,
        ActionStatus::NeedsApproval => e is ActionNeedsApproval,
        ActionStatus::NeedsIntervention => e is ActionNeedsIntervention,
        ActionStatus::Failed => e is ActionFailed,
    }
}

/// Outcome `k` has its status event at `ends[k]`, after candidate `k`'s
/// verification result and before candidate `k + 1`'s start.
pub open spec fn status_events(tr: Seq<TraceEventKind>, starts: Seq<int>, ends: Seq<int>, outcomes: Seq<ActionOutcome>) -> bool {
    &&& ends.len() == outcomes.len()
    &&& starts.len() == outcomes.len()
    &&& forall|k: int| 0 <= k < ends.len() ==> {
        &&& starts[k] + 2 <= #[trigger] ends[k] < tr.len()
        &&& (k + 1 < ends.len() ==> ends[k] < starts[k + 1])
        &&& status_event(outcomes[k].status, tr[ends[k]])
    }
}

/// No event of `tr` from position `from` on commits state.
pub open spec fn no_commit_from(tr: Seq<TraceEventKind>, from: int) -> bool {
    forall|i: int| from <= i < tr.len() ==> !(#[trigger] tr[i] is StateCommitted)
}

/// Candidate `k` of `actions` has its events in `tr` from position
/// `starts[k]`: its verification start, then its verification result, with
/// at least one more event (its final status) before the next candidate's.
pub open spec fn candidate_events(tr: Seq<TraceEventKind>, starts: Seq<int>, actions: Seq<ActionCandidate>) -> bool {
    &&& starts.len() == actions.len()
    &&& forall|k: int| 0 <= k < starts.len() ==> {
        &&& #[trigger] starts[k] + 3 <= tr.len()
        &&& (k + 1 < starts.len() ==> starts[k] + 3 <= starts[k + 1])
        &&& tr[starts[k]] matches TraceEventKind::ActionVerificationStarted { action } && action@ == actions[k].action.name@
        &&& tr[starts[k] + 1] matches TraceEventKind::ActionVerificationCompleted { action, .. } && action@ == actions[k].action.name@
    }
}

/// The action id the engine assigns to candidate `index` of tick `tick_id`.
pub open spec fn candidate_action_id(tick_id: u64, index: u64) -> ActionId {
    ActionId { value: (tick_id * 18446744073709551616 + index) as u128 }
}

/// How an action outcome is written in a tick's recorded outcome: its id
/// as hex text, its verification, its post-execution verification, a copy of
/// its output and its error text (null when absent).
pub open spec fn outcome_json_of(j: Json, o: ActionOutcome) -> bool {
    &&& j is Object
    &&& json_get(j, "action_id"@) matches Some(Json::Str(t)) && t@ == crate::textual::uuid_text(o.action_id.value)
    &&& json_get(j, "verification"@) matches Some(v) && crate::escalation::verification_json_of(v, o.verification)
    &&& json_get(j, "post_verification"@) matches Some(p) && (match o.post_verification {
        Some(pv) => crate::escalation::verification_json_of(p, pv),
        None => p is Null,
    })
    &&& json_get(j, "output"@) matches Some(x) && (match o.output {
        Some(ov) => crate::json::json_same(x, ov),
        None => x is Null,
    })
    &&& json_get(j, "error"@) matches Some(e) && (match o.error {
        Some(t) => json_str(e) == Some(t@),
        None => e is Null,
    })
}

pub(crate) fn outcome_json(o: &ActionOutcome) -> (r: Json)
    ensures
        outcome_json_of(r, *o),
{
    proof {
        reveal_strlit("action_id");
        reveal_strlit("verification");
        reveal_strlit("post_verification");
        reveal_strlit("output");
        reveal_strlit("error");
        assert("action_id"@.len() != "verification"@.len());
        assert("action_id"@.len() != "post_verification"@.len());
        assert("action_id"@.len() != "output"@.len());
        assert("action_id"@.len() != "error"@.len());
        assert("verification"@.len() != "post_verification"@.len());
        assert("verification"@.len() != "output"@.len());
        assert("verification"@.len() != "error"@.len());
        assert("post_verification"@.len() != "output"@.len());
        assert("post_verification"@.len() != "error"@.len());
        assert("output"@.len() != "error"@.len());
    }
    let mut j = Json::object();
    j.insert(String::from_str("action_id"), Json::Str(crate::textual::uuid_string(o.action_id.value)));
    let ghost j_1 = j;
    j.insert(String::from_str("verification"), verification_json(&o.verification));
    assert(json_get(j, "action_id"@) == json_get(j_1, "action_id"@));
    let ghost j_2 = j;
    match &o.post_verification {
        Some(p) => j.insert(String::from_str("post_verification"), verification_json(p)),
        None => j.insert(String::from_str("post_verification"), Json::Null),
    }
    assert(json_get(j, "action_id"@) == json_get(j_2, "action_id"@));
    assert(json_get(j, "verification"@) == json_get(j_2, "verification"@));
    let ghost j_3 = j;
    match &o.output {
        Some(v) => j.insert(String::from_str("output"), copy_json(v)),
        None => j.insert(String::from_str("output"), Json::Null),
    }
    assert(json_get(j, "action_id"@) == json_get(j_3, "action_id"@));
    assert(json_get(j, "verification"@) == json_get(j_3, "verification"@));
    assert(json_get(j, "post_verification"@) == json_get(j_3, "post_verification"@));
    let ghost j_4 = j;
    match &o.error {
        Some(e) => j.insert(String::from_str("error"), Json::string(e)),
        None => j.insert(String::from_str("error"), Json::Null),
    }
    assert(json_get(j, "action_id"@) == json_get(j_4, "action_id"@));
    assert(json_get(j, "verification"@) == json_get(j_4, "verification"@));
    assert(json_get(j, "post_verification"@) == json_get(j_4, "post_verification"@));
    assert(json_get(j, "output"@) == json_get(j_4, "output"@));
    j
}

/// Loop engine for one agent.
pub struct LoopEngine<S: TraceSink, G: ActionGateway, St: StateStore> {
    agent: AgentContext,
    runtime: KernelRuntime<S>,
    state_graph: StateGraph<St>,
    state: StateData,
    perceptors: Vec<Box<dyn Perceptor>>,
    policy: Box<dyn Policy>,
    constraint_engine: Box<dyn ConstraintEngine>,
    gateway: G,
    outcome_evaluator: Box<dyn OutcomeEvaluator>,
    escalation_evaluator: Option<EscalationEvaluator>,
    submitted: Ghost<Seq<ActionRequest>>,
    answers: Ghost<Seq<Result<ActionOutcome, GatewayError>>>,
    decided: Ghost<Option<PolicyDecision>>,
    constrained: Ghost<Option<VerificationResult>>,
}

impl<S: TraceSink, G: ActionGateway, St: StateStore> LoopEngine<S, G, St> {
    pub closed spec fn agent_spec(&self) -> AgentContext {
        self.agent
    }

    pub closed spec fn trace(&self) -> Seq<TraceEventKind> {
        self.runtime.events()
    }

    pub closed spec fn run(&self) -> crate::ids::RunId {
        self.runtime.run()
    }

    pub closed spec fn graph_head(&self) -> Option<StateNodeId> {
        self.state_graph.head_spec()
    }

    pub closed spec fn graph_tick(&self) -> u64 {
        self.state_graph.tick_spec()
    }

    pub closed spec fn gateway_spec(&self) -> G {
        self.gateway
    }

    /// The requests this engine has handed its gateway, in order.
    pub closed spec fn submitted_requests(&self) -> Seq<ActionRequest> {
        self.submitted@
    }

    /// The gateway's answers to those requests, in the same order.
    pub closed spec fn gateway_answers(&self) -> Seq<Result<ActionOutcome, GatewayError>> {
        self.answers@
    }

    /// Whether an escalation policy reviews each outcome.
    pub closed spec fn escalates(&self) -> bool {
        self.escalation_evaluator is Some
    }

    /// The decision the policy returned in the latest tick that reached it.
    pub closed spec fn last_decision(&self) -> Option<PolicyDecision> {
        self.decided@
    }

    /// The constraint verdict of the latest tick that reached the constraints.
    pub closed spec fn last_constraint(&self) -> Option<VerificationResult> {
        self.constrained@
    }

    /// The state the engine holds.
    pub closed spec fn current_state(&self) -> StateData {
        self.state
    }

    /// The sequence the next recorded event will carry.
    pub closed spec fn next_seq(&self) -> u64 {
        self.runtime.next_seq()
    }

    /// An engine over an explicit runtime; the agent's state head follows
    /// the graph's head when the graph has one.
    pub fn with_runtime(
        agent: AgentContext,
        state_graph: StateGraph<St>,
        state: StateData,
        policy: Box<dyn Policy>,
        gateway: G,
        runtime: KernelRuntime<S>,
    ) -> (r: Self)
        ensures
            r.agent_spec().agent_id == agent.agent_id,
            r.agent_spec().tenant_id == agent.tenant_id,
            r.agent_spec().delegated_authority == agent.delegated_authority,
            r.agent_spec().config == agent.config,
            r.agent_spec().state_head == if state_graph.head_spec() is Some { state_graph.head_spec() } else { agent.state_head },
            r.trace() == runtime.events(),
            r.run() == runtime.run(),
            r.graph_head() == state_graph.head_spec(),
            r.graph_tick() == state_graph.tick_spec(),
            r.gateway_spec() == gateway,
            r.submitted_requests() == Seq::<ActionRequest>::empty(),
            r.gateway_answers() == Seq::<Result<ActionOutcome, GatewayError>>::empty(),
            !r.escalates(),
    {
        let mut agent = agent;
        if let Some(head) = state_graph.head() {
            agent.set_state_head(head);
        }
        LoopEngine {
            agent,
            runtime,
            state_graph,
            state,
            perceptors: Vec::new(),
            policy,
            constraint_engine: Box::new(AllowAllConstraintEngine),
            gateway,
            outcome_evaluator: Box::new(NoopOutcomeEvaluator),
            escalation_evaluator: None,
            submitted: Ghost(Seq::empty()),
            answers: Ghost(Seq::empty()),
            decided: Ghost(None),
            constrained: Ghost(None),
        }
    }

    pub fn agent_id(&self) -> (r: crate::ids::AgentId)
        ensures
            r == self.agent_spec().agent_id,
    {
        self.agent.agent_id
    }

    pub fn tenant_id(&self) -> (r: crate::ids::TenantId)
        ensures
            r == self.agent_spec().tenant_id,
    {
        self.agent.tenant_id
    }

    pub fn agent(&self) -> (r: &AgentContext)
        ensures
            *r == self.agent_spec(),
    {
        &self.agent
    }

    pub fn runtime(&self) -> (r: &KernelRuntime<S>)
        ensures
            r.events() == self.trace(),
            r.run() == self.run(),
    {
        &self.runtime
    }

    pub fn state_graph(&self) -> (r: &StateGraph<St>)
        ensures
            r.head_spec() == self.graph_head(),
            r.tick_spec() == self.graph_tick(),
    {
        &self.state_graph
    }

    pub fn gateway_mut(&mut self) -> (r: &mut G) {
        &mut self.gateway
    }

    pub fn add_perceptor(&mut self, perceptor: Box<dyn Perceptor>)
        ensures
            final(self).agent_spec() == old(self).agent_spec(),
            final(self).trace() == old(self).trace(),
            final(self).graph_tick() == old(self).graph_tick(),
    {
        self.perceptors.push(perceptor);
    }

    pub fn set_constraint_engine(&mut self, engine: Box<dyn ConstraintEngine>)
        ensures
            final(self).agent_spec() == old(self).agent_spec(),
            final(self).trace() == old(self).trace(),
            final(self).graph_tick() == old(self).graph_tick(),
    {
        self.constraint_engine = engine;
    }

    pub fn set_outcome_evaluator(&mut self, evaluator: Box<dyn OutcomeEvaluator>)
        ensures
            final(self).agent_spec() == old(self).agent_spec(),
            final(self).trace() == old(self).trace(),
            final(self).graph_tick() == old(self).graph_tick(),
    {
        self.outcome_evaluator = evaluator;
    }

    /// Enables escalation evaluation under `policy`.
    pub fn set_escalation_policy(&mut self, policy: EscalationPolicy)
        ensures
            final(self).agent_spec() == old(self).agent_spec(),
            final(self).trace() == old(self).trace(),
            final(self).graph_tick() == old(self).graph_tick(),
            final(self).escalates(),
    {
        self.escalation_evaluator = Some(EscalationEvaluator::new(policy));
    }

    /// Records an event under the runtime's own identity.
    pub fn record_runtime_event(&mut self, kind: TraceEventKind) -> (r: Result<TraceEvent, LoopError>)
        ensures
            final(self).submitted_requests() == old(self).submitted_requests(),
            final(self).gateway_answers() == old(self).gateway_answers(),
            final(self).escalates() == old(self).escalates(),
            final(self).agent_spec() == old(self).agent_spec(),
            final(self).run() == old(self).run(),
            final(self).graph_tick() == old(self).graph_tick(),
            final(self).next_seq() == crate::trace::next_sequence_after(old(self).next_seq()),
            r is Ok ==> final(self).trace() == old(self).trace().push(kind),
            r is Err ==> final(self).trace() == old(self).trace(),
    {
        match self.runtime.record_event(kind) {
            Ok(e) => Ok(e),
            Err(e) => Err(LoopError::Trace(e)),
        }
    }

    /// Records `RunStarted` when the run has no event yet.
    pub fn start_run(&mut self) -> (r: Result<(), LoopError>)
        ensures
            final(self).submitted_requests() == old(self).submitted_requests(),
            final(self).gateway_answers() == old(self).gateway_answers(),
            final(self).escalates() == old(self).escalates(),
            final(self).agent_spec() == old(self).agent_spec(),
            final(self).run() == old(self).run(),
            final(self).graph_head() == old(self).graph_head(),
            final(self).graph_tick() == old(self).graph_tick(),
            r is Err ==> final(self).trace() == old(self).trace(),
            r is Ok ==> final(self).trace() == if old(self).next_seq() == 0 { old(self).trace().push(TraceEventKind::RunStarted) } else { old(self).trace() },
            old(self).next_seq() != 0 ==> r is Ok && final(self).next_seq() == old(self).next_seq(),
            old(self).next_seq() == 0 ==> final(self).next_seq() == 1,
    {
        if self.runtime.next_sequence() == 0 {
            match self.runtime.record_event(TraceEventKind::RunStarted) {
                Ok(_) => {},
                Err(e) => return Err(LoopError::Trace(e)),
            }
        }
        Ok(())
    }

    fn tick_identity(&self, tick_id: u64) -> (r: TraceIdentity)
        ensures
            r.run_id == self.runtime.run(),
    {
        TraceIdentity {
            run_id: self.runtime.run_id(),
            tenant_id: Some(self.agent.tenant_id),
            agent_id: Some(self.agent.agent_id),
            tick_id: Some(tick_id),
            action_id: None,
            state_node_id: None,
        }
    }

    fn record_tick_event(&mut self, tick_id: u64, kind: TraceEventKind) -> (r: Result<(), LoopError>)
        ensures
            final(self).last_decision() == old(self).last_decision(),
            final(self).last_constraint() == old(self).last_constraint(),
            final(self).current_state() == old(self).current_state(),
            final(self).submitted_requests() == old(self).submitted_requests(),
            final(self).gateway_answers() == old(self).gateway_answers(),
            final(self).escalates() == old(self).escalates(),
            final(self).agent == old(self).agent,
            final(self).run() == old(self).run(),
            final(self).state_graph == old(self).state_graph,
            final(self).gateway == old(self).gateway,
            final(self).next_seq() == crate::trace::next_sequence_after(old(self).next_seq()),
            r is Ok ==> final(self).trace() == old(self).trace().push(kind),
            r is Err ==> final(self).trace() == old(self).trace(),
    {
        let identity = self.tick_identity(tick_id);
        match self.runtime.record_event_with_identity(identity, kind) {
            Ok(_) => Ok(()),
            Err(e) => Err(LoopError::Trace(e)),
        }
    }

    fn record_action_event(&mut self, tick_id: u64, action_id: ActionId, kind: TraceEventKind) -> (r: Result<(), LoopError>)
        ensures
            final(self).last_decision() == old(self).last_decision(),
            final(self).last_constraint() == old(self).last_constraint(),
            final(self).current_state() == old(self).current_state(),
            final(self).submitted_requests() == old(self).submitted_requests(),
            final(self).gateway_answers() == old(self).gateway_answers(),
            final(self).escalates() == old(self).escalates(),
            final(self).agent == old(self).agent,
            final(self).run() == old(self).run(),
            final(self).state_graph == old(self).state_graph,
            final(self).gateway == old(self).gateway,
            final(self).next_seq() == crate::trace::next_sequence_after(old(self).next_seq()),
            r is Ok ==> final(self).trace() == old(self).trace().push(kind),
            r is Err ==> final(self).trace() == old(self).trace(),
    {
        let mut identity = self.tick_identity(tick_id);
        identity.action_id = Some(action_id);
        match self.runtime.record_event_with_identity(identity, kind) {
            Ok(_) => Ok(()),
            Err(e) => Err(LoopError::Trace(e)),
        }
    }

    fn collect_percepts(&self) -> (r: Result<Vec<Percept>, LoopError>)
        ensures
            self.perceptors@.len() == 0 ==> (r matches Ok(v) && v@.len() == 0),
    {
        let mut percepts: Vec<Percept> = Vec::new();
        let mut i: usize = 0;
        while i < self.perceptors.len()
            invariant
                i <= self.perceptors@.len(),
                self.perceptors@.len() == 0 ==> percepts@.len() == 0,
            decreases self.perceptors@.len() - i,
        {
            let mut batch = self.perceptors[i].collect(&self.agent)?;
            percepts.append(&mut batch);
            i = i + 1;
        }
        Ok(percepts)
    }

    fn evaluate_escalations(&self, action_id: ActionId, action: &Action, adapter: Option<&String>, outcome: &mut ActionOutcome)
        -> (r: Vec<EscalationContext>)
        ensures
            self.escalation_evaluator is None ==> r@.len() == 0 && *final(outcome) == *old(outcome),
            self.escalation_evaluator matches Some(ev) ==> {
                &&& r@.map_values(|c: EscalationContext| (c.trigger, c.scope))
                    == crate::escalation::matched_kinds(ev.rules(), crate::escalation::observation_plan(*old(outcome), *action),
                        crate::escalation::observed_count(old(outcome).verification))
                &&& forall|i: int| 0 <= i < r@.len() ==> (#[trigger] r@[i]).action_id == Some(action_id)
                    && r@[i].tenant_id == self.agent_spec().tenant_id && r@[i].agent_id == self.agent_spec().agent_id
                    && r@[i].run_id == self.run()
                    && crate::escalation::decided_by_first_rule(ev.rules(), r@[i])
            },
            old(outcome).status == ActionStatus::Denied ==> final(outcome).status == ActionStatus::Denied
                || final(outcome).status == ActionStatus::NeedsIntervention,
            old(outcome).status == ActionStatus::Failed ==> final(outcome).status == ActionStatus::Failed,
            old(outcome).status != ActionStatus::Executed ==> final(outcome).status != ActionStatus::Executed,
            final(outcome).action_id == old(outcome).action_id,
            extends(strs(old(outcome).verification.reasons@), strs(final(outcome).verification.reasons@)),
    {
        match &self.escalation_evaluator {
            None => Vec::new(),
            Some(evaluator) => {
                let escalations = {
                    let input = EscalationOutcomeInput {
                        tenant_id: &self.agent.tenant_id,
                        agent_id: &self.agent.agent_id,
                        run_id: &self.runtime.run_id(),
                        action_id: &action_id,
                        action,
                        adapter,
                        outcome: &*outcome,
                    };
                    evaluator.evaluate_outcome(&input)
                };
                let mut i: usize = 0;
                while i < escalations.len()
                    invariant
                        i <= escalations@.len(),
                        old(outcome).status == ActionStatus::Denied ==> outcome.status == ActionStatus::Denied
                            || outcome.status == ActionStatus::NeedsIntervention,
                        old(outcome).status == ActionStatus::Failed ==> outcome.status == ActionStatus::Failed,
                        old(outcome).status != ActionStatus::Executed ==> outcome.status != ActionStatus::Executed,
                        outcome.action_id == old(outcome).action_id,
                        extends(strs(old(outcome).verification.reasons@), strs(outcome.verification.reasons@)),
                    decreases escalations@.len() - i,
                {
                    apply_escalation_to_outcome(outcome, &escalations[i]);
                    i = i + 1;
                }
                escalations
            },
        }
    }
}

impl<S: TraceSink, G: ActionGateway, St: StateStore> LoopEngine<S, G, St> {
    fn record_approval_event_if_present(&mut self, tick_id: u64, action_id: ActionId, outcome: &ActionOutcome) -> (r: Result<(), LoopError>)
        ensures
            no_commit_from(final(self).trace(), old(self).trace().len() as int),
            final(self).last_decision() == old(self).last_decision(),
            final(self).last_constraint() == old(self).last_constraint(),
            final(self).current_state() == old(self).current_state(),
            final(self).submitted_requests() == old(self).submitted_requests(),
            final(self).gateway_answers() == old(self).gateway_answers(),
            final(self).escalates() == old(self).escalates(),
            final(self).agent == old(self).agent,
            final(self).run() == old(self).run(),
            final(self).state_graph == old(self).state_graph,
            final(self).gateway == old(self).gateway,
            extends(old(self).trace(), final(self).trace()),
            approval_artifact_spec(outcome.verification.artifacts) is None ==> r is Ok
                && final(self).trace() == old(self).trace() && final(self).next_seq() == old(self).next_seq(),
            approval_artifact_spec(outcome.verification.artifacts) is Some ==> {
                &&& final(self).next_seq() == crate::trace::next_sequence_after(old(self).next_seq())
                &&& r is Err ==> final(self).trace() == old(self).trace()
                &&& r is Ok ==> final(self).trace().len() == old(self).trace().len() + 1
                    && final(self).trace().drop_last() == old(self).trace()
                    && approval_kind_for(approval_artifact_spec(outcome.verification.artifacts).unwrap().0, final(self).trace().last())
            },
    {
        match approval_artifact(&outcome.verification) {
            None => Ok(()),
            Some((status, approval)) => {
                let kind = approval_trace_kind(&status, approval);
                self.record_action_event(tick_id, action_id, kind)
            },
        }
    }

    /// Runs candidate `index` of tick `tick_id`: records the start of its
    /// verification, denies it before the gateway when the tick's
    /// constraints or the agent's delegated authority refuse it (in that
    /// order), otherwise submits it to the gateway (a gateway error fails
    /// it), applies escalations, and records the verification result, the
    /// escalations and the final status.
    ///
    /// An action refused by constraints or delegated scope never reaches the
    /// gateway and never executes.
    pub fn process_candidate(&mut self, tick_id: u64, index: u64, candidate: &ActionCandidate, constraint: &VerificationResult)
        -> (r: Result<(ActionOutcome, Vec<EscalationContext>), LoopError>)
        ensures
            no_commit_from(final(self).trace(), old(self).trace().len() as int),
            final(self).last_decision() == old(self).last_decision(),
            final(self).last_constraint() == old(self).last_constraint(),
            final(self).current_state() == old(self).current_state(),
            final(self).agent_spec() == old(self).agent_spec(),
            final(self).run() == old(self).run(),
            final(self).graph_head() == old(self).graph_head(),
            final(self).graph_tick() == old(self).graph_tick(),
            extends(old(self).trace(), final(self).trace()),
            (!constraint.allowed || scope_refuses(old(self).agent_spec(), *candidate))
                ==> final(self).gateway_spec() == old(self).gateway_spec()
                    && final(self).submitted_requests() == old(self).submitted_requests()
                    && final(self).gateway_answers() == old(self).gateway_answers(),
            final(self).escalates() == old(self).escalates(),
            extends(old(self).gateway_answers(), final(self).gateway_answers()),
            final(self).gateway_answers().len() <= old(self).gateway_answers().len() + 1,
            constraint.allowed && !scope_refuses(old(self).agent_spec(), *candidate) && r is Ok
                ==> final(self).gateway_answers().len() == old(self).gateway_answers().len() + 1,
            // Without an escalation policy the outcome is the one owed: the
            // refusing check's denial, or the gateway's answer.
            r matches Ok((o, es)) ==> (!old(self).escalates()
                ==> settled_outcome(old(self).agent_spec(), *constraint, *candidate, final(self).gateway_answers().last(), o)),
            // An allowed candidate is handed to the gateway as the agent's own request.
            constraint.allowed && !scope_refuses(old(self).agent_spec(), *candidate) && r is Ok
                ==> final(self).submitted_requests().len() == old(self).submitted_requests().len() + 1
                    && final(self).submitted_requests().drop_last() == old(self).submitted_requests()
                    && request_for(final(self).submitted_requests().last(), candidate_action_id(tick_id, index),
                        old(self).agent_spec(), old(self).run(), *candidate),
            extends(old(self).submitted_requests(), final(self).submitted_requests()),
            final(self).submitted_requests().len() <= old(self).submitted_requests().len() + 1,
            forall|j: int| old(self).submitted_requests().len() <= j < final(self).submitted_requests().len()
                ==> request_for(#[trigger] final(self).submitted_requests()[j], candidate_action_id(tick_id, index),
                        old(self).agent_spec(), old(self).run(), *candidate),
            // A refusal before the gateway keeps the refusing check's reasons first.
            r matches Ok((o, es)) ==> (!constraint.allowed ==> extends(strs(constraint.reasons@), strs(o.verification.reasons@))),
            r matches Ok((o, es)) ==> (constraint.allowed && scope_refuses(old(self).agent_spec(), *candidate) ==> extends(
                crate::tenancy::delegated_reasons(old(self).agent_spec().delegated_authority, candidate.action.name@,
                    crate::escalation::opt_string_view(candidate.adapter), strs(candidate.action.required_permissions@)),
                strs(o.verification.reasons@))),
            r matches Ok((o, es)) ==> ((!constraint.allowed || scope_refuses(old(self).agent_spec(), *candidate)) ==> o.action_id == candidate_action_id(tick_id, index))
                && ((!constraint.allowed || scope_refuses(old(self).agent_spec(), *candidate)) ==> o.status != ActionStatus::Executed)
                && (!constraint.allowed ==> (o.status == ActionStatus::Denied || o.status == ActionStatus::NeedsIntervention))
                && ((constraint.allowed && scope_refuses(old(self).agent_spec(), *candidate))
                    ==> (o.status == ActionStatus::Denied || o.status == ActionStatus::NeedsIntervention)),
            r is Ok ==> old(self).trace().len() < final(self).trace().len(),
            r is Ok ==> (final(self).trace()[old(self).trace().len() as int] matches TraceEventKind::ActionVerificationStarted { action }
                && action@ == candidate.action.name@),
            // The candidate's events run from its verification start, through the
            // verification result, to the event naming its final status.
            r matches Ok((o, es)) ==> {
                let tr = final(self).trace();
                let n = old(self).trace().len() as int;
                &&& tr.len() >= n + 3
                &&& tr[n + 1] matches TraceEventKind::ActionVerificationCompleted { action, .. } && action@ == candidate.action.name@
                &&& (o.status == ActionStatus::Executed ==> tr.last() is ActionExecuted)
                &&& (o.status == ActionStatus::Denied ==> tr.last() is ActionDenied)
                &&& (o.status == ActionStatus::NeedsApproval ==> tr.last() is ActionNeedsApproval)
                &&& (o.status == ActionStatus::NeedsIntervention ==> tr.last() is ActionNeedsIntervention)
                &&& (o.status == ActionStatus::Failed ==> tr.last() is ActionFailed)
                &&& status_event(o.status, tr.last())
            },
    {
        let ghost t0 = self.trace();
        assert(tick_id * 18446744073709551616 + index <= u128::MAX) by (nonlinear_arith)
            requires tick_id <= u64::MAX, index <= u64::MAX;
        let action_id = ActionId { value: (tick_id as u128) * 18446744073709551616u128 + (index as u128) };
        self.record_action_event(tick_id, action_id, TraceEventKind::ActionVerificationStarted { action: candidate.action.name.clone() })?;
        let ghost t1 = self.trace();
        let adapter_ref = candidate.adapter.as_ref();
        let delegated = self.agent.verify_delegated_action(&candidate.action, adapter_ref);
        proof {
            assert(crate::tenancy::opt_view(adapter_ref) == crate::escalation::opt_string_view(candidate.adapter));
        }
        let mut outcome = if !constraint.allowed {
            denied_before_gateway(action_id, constraint)
        } else if !delegated.allowed {
            denied_before_gateway(action_id, &delegated)
        } else {
            let request = candidate_request(action_id, &self.agent, self.runtime.run_id(), candidate, now_utc());
            proof { self.submitted@ = self.submitted@.push(request); }
            let answer = self.gateway.submit(request);
            proof { self.answers@ = self.answers@.push(answer); }
            match answer {
                Ok(o) => o,
                Err(e) => outcome_from_gateway_error(action_id, &e),
            }
        };
        let escalations = self.evaluate_escalations(action_id, &candidate.action, candidate.adapter.as_ref(), &mut outcome);
        let ghost sub1 = self.submitted@;
        let ghost ans1 = self.answers@;
        let name = &candidate.action.name;
        self.record_action_event(tick_id, action_id, TraceEventKind::ActionVerificationCompleted {
            action: name.clone(),
            result: outcome.verification.duplicate(),
        })?;
        let ghost tc = self.trace();
        assert(tc.len() == t0.len() + 2);
        assert(tc[t0.len() as int + 1] matches TraceEventKind::ActionVerificationCompleted { action, .. } && action@ == candidate.action.name@);
        let mut i: usize = 0;
        while i < escalations.len()
            invariant
                i <= escalations@.len(),
                self.agent == old(self).agent,
                self.run() == old(self).run(),
                self.state_graph == old(self).state_graph,
                extends(t1, self.trace()),
                t1.len() == t0.len() + 1,
                extends(t0, t1),
                t0 == old(self).trace(),
                (!constraint.allowed || scope_refuses(old(self).agent_spec(), *candidate)) ==> self.gateway == old(self).gateway,
                self.submitted@ == sub1,
                self.answers@ == ans1,
                self.escalates() == old(self).escalates(),
                extends(old(self).answers@, ans1),
                ans1.len() <= old(self).answers@.len() + 1,
                (!constraint.allowed || scope_refuses(old(self).agent_spec(), *candidate)) ==> ans1 == old(self).answers@,
                extends(tc, self.trace()),
                no_commit_from(self.trace(), t0.len() as int),
                tc.len() == t0.len() + 2,
                tc[t0.len() as int + 1] matches TraceEventKind::ActionVerificationCompleted { action, .. } && action@ == candidate.action.name@,
                self.decided == old(self).decided,
                self.constrained == old(self).constrained,
                self.state == old(self).state,
                extends(old(self).submitted@, sub1),
                sub1.len() <= old(self).submitted@.len() + 1,
                (!constraint.allowed || scope_refuses(old(self).agent_spec(), *candidate)) ==> sub1 == old(self).submitted@,
                forall|j: int| old(self).submitted@.len() <= j < sub1.len()
                    ==> request_for(#[trigger] sub1[j], candidate_action_id(tick_id, index), old(self).agent_spec(), old(self).run(), *candidate),
            decreases escalations@.len() - i,
        {
            let ghost before = self.trace();
            self.record_action_event(tick_id, action_id, TraceEventKind::EscalationTriggered { reason: escalations[i].reason.clone() })?;
            i = i + 1;
        }
        let ghost t2 = self.trace();
        match outcome.status {
            ActionStatus::Executed => {
                self.record_approval_event_if_present(tick_id, action_id, &outcome)?;
                let out = match &outcome.output { Some(v) => copy_json(v), None => Json::Null };
                self.record_action_event(tick_id, action_id, TraceEventKind::ActionExecuted { action: name.clone(), outcome: out })?;
            },
            ActionStatus::Denied => {
                self.record_approval_event_if_present(tick_id, action_id, &outcome)?;
                self.record_action_event(tick_id, action_id, TraceEventKind::ActionDenied { action: name.clone(), result: outcome.verification.duplicate() })?;
            },
            ActionStatus::NeedsApproval => {
                self.record_approval_event_if_present(tick_id, action_id, &outcome)?;
                self.record_action_event(tick_id, action_id, TraceEventKind::ActionNeedsApproval { action: name.clone(), result: outcome.verification.duplicate() })?;
            },
            ActionStatus::NeedsIntervention => {
                self.record_approval_event_if_present(tick_id, action_id, &outcome)?;
                self.record_action_event(tick_id, action_id, TraceEventKind::ActionNeedsIntervention { action: name.clone(), result: outcome.verification.duplicate() })?;
            },
            ActionStatus::Failed => {
                if outcome.output.is_some() {
                    let out = match &outcome.output { Some(v) => copy_json(v), None => Json::Null };
                    self.record_action_event(tick_id, action_id, TraceEventKind::ActionExecuted { action: name.clone(), outcome: out })?;
                }
                let denial = failure_denial(&outcome);
                self.record_action_event(tick_id, action_id, TraceEventKind::ActionFailed {
                    action: name.clone(),
                    error: failure_error(&outcome),
                    result: denial,
                })?;
            },
        }
        proof {
            assert(self.trace()[t0.len() as int] == t1[t0.len() as int]);
            assert(self.trace()[t0.len() as int + 1] == tc[t0.len() as int + 1]);
        }
        Ok((outcome, escalations))
    }
}

/// How an escalation is written in a tick's recorded outcome.
pub open spec fn escalation_json_of(j: Json, e: EscalationContext) -> bool {
    &&& j is Object
    &&& json_get(j, "trigger"@) matches Some(Json::Str(t)) && t@ == crate::escalation::trigger_code(e.trigger)
    &&& json_get(j, "threshold"@) == Some(Json::UInt(e.threshold as u64))
    &&& json_get(j, "observed_count"@) == Some(Json::UInt(e.observed_count as u64))
    &&& json_get(j, "reason"@) matches Some(x) && json_str(x) == Some(e.reason@)
}

fn escalation_json(e: &EscalationContext) -> (r: Json)
    ensures
        escalation_json_of(r, *e),
{
    proof {
        reveal_strlit("trigger");
        reveal_strlit("threshold");
        reveal_strlit("observed_count");
        reveal_strlit("reason");
        assert("trigger"@.len() != "threshold"@.len());
        assert("trigger"@.len() != "observed_count"@.len());
        assert("trigger"@.len() != "reason"@.len());
        assert("threshold"@.len() != "observed_count"@.len());
        assert("threshold"@.len() != "reason"@.len());
        assert("observed_count"@.len() != "reason"@.len());
    }
    let mut o = Json::object();
    o.insert(String::from_str("trigger"), Json::Str(String::from_str(e.trigger.reason_code())));
    let ghost o_1 = o;
    o.insert(String::from_str("threshold"), Json::UInt(e.threshold as u64));
    assert(json_get(o, "trigger"@) == json_get(o_1, "trigger"@));
    let ghost o_2 = o;
    o.insert(String::from_str("observed_count"), Json::UInt(e.observed_count as u64));
    assert(json_get(o, "trigger"@) == json_get(o_2, "trigger"@));
    assert(json_get(o, "threshold"@) == json_get(o_2, "threshold"@));
    let ghost o_3 = o;
    o.insert(String::from_str("reason"), Json::string(&e.reason));
    assert(json_get(o, "trigger"@) == json_get(o_3, "trigger"@));
    assert(json_get(o, "threshold"@) == json_get(o_3, "threshold"@));
    assert(json_get(o, "observed_count"@) == json_get(o_3, "observed_count"@));
    o
}

/// The first feedback and the first reward among the signals.
pub open spec fn first_signals(signals: Seq<OutcomeSignal>) -> (Option<String>, Option<i64>)
    decreases signals.len(),
{
    if signals.len() == 0 {
        (None, None)
    } else {
        let rest = first_signals(signals.drop_first());
        (
            if signals[0].feedback is Some { signals[0].feedback } else { rest.0 },
            if signals[0].reward is Some { signals[0].reward } else { rest.1 },
        )
    }
}

impl<S: TraceSink, G: ActionGateway, St: StateStore> LoopEngine<S, G, St> {
    fn evaluate_outcomes(&self, decision: &PolicyDecision, outcomes: &Vec<ActionOutcome>) -> (r: (Option<String>, Option<i64>))
        ensures
            decision.actions@.len() == 0 || outcomes@.len() == 0 ==> r.0 is None && r.1 is None,
    {
        let mut feedback: Option<String> = None;
        let mut reward: Option<i64> = None;
        let mut i: usize = 0;
        while i < decision.actions.len() && i < outcomes.len()
            invariant
                i <= decision.actions@.len(),
                decision.actions@.len() == 0 || outcomes@.len() == 0 ==> feedback is None && reward is None,
            decreases decision.actions@.len() - i,
        {
            let signal = self.outcome_evaluator.evaluate(&decision.actions[i].action, &outcomes[i]);
            if feedback.is_none() {
                feedback = signal.feedback;
            }
            if reward.is_none() {
                reward = signal.reward;
            }
            i = i + 1;
        }
        (feedback, reward)
    }

    /// What a tick `tick_id` that returned `r` does to an engine that was
    /// `before` and is `after`.
    pub open spec fn tick_effect(before: Self, after: Self, tick_id: u64, r: Result<TickOutcome, LoopError>) -> bool {
        &&& (after.run() == before.run())
        &&& (extends(before.trace(), after.trace()))
        &&& (after.graph_tick() <= before.graph_tick() + 1)
        &&& (after.agent_spec().agent_id == before.agent_spec().agent_id)
        &&& (after.agent_spec().tenant_id == before.agent_spec().tenant_id)
        // Every request handed to the gateway is the agent's own, in its run.
        &&& (extends(before.submitted_requests(), after.submitted_requests()))
        &&& (extends(before.gateway_answers(), after.gateway_answers()))
        &&& (own_requests(after.submitted_requests(), before.submitted_requests().len() as int, before.agent_spec(), before.run()))
        // A tick that failed before committing records no state commit.
        &&& (r is Err && after.graph_tick() == before.graph_tick()
            ==> no_commit_from(after.trace(), before.trace().len() as int))
        // A failed tick either committed nothing, or committed and moved the head.
        &&& (r is Err ==> (after.graph_tick() == before.graph_tick() && after.graph_head() == before.graph_head()
                && after.agent_spec() == before.agent_spec())
            || (after.graph_tick() == before.graph_tick() + 1 && after.graph_head() is Some
                && after.agent_spec() == (AgentContext { state_head: after.graph_head(), ..before.agent_spec() })))
        // A tick that failed before committing leaves the held state.
        &&& (r is Err && after.graph_tick() == before.graph_tick() ==> after.current_state() == before.current_state())
        // A tick that failed before the policy decided handed nothing to the
        // gateway, committed nothing and left the head, the graph's tick and
        // the held state as they were.
        &&& (after.last_decision() is None ==> after.submitted_requests() == before.submitted_requests()
            && after.graph_tick() == before.graph_tick() && after.graph_head() == before.graph_head()
            && after.agent_spec() == before.agent_spec() && after.current_state() == before.current_state()
            && no_commit_from(after.trace(), before.trace().len() as int))
        &&& (r matches Ok(t) ==> {
            let e0 = before.trace().len();
            let tr = after.trace();
            &&& t.tick_id == tick_id
            // Candidates are gated on the constraint verdict and the
            // delegated authority, and handled in order.
            &&& after.last_constraint() matches Some(c)
            &&& candidates_handled(before.agent_spec(), before.run(), tick_id, after.last_constraint().unwrap(),
                    after.last_decision().unwrap().actions@, t.action_outcomes@,
                    after.submitted_requests().skip(before.submitted_requests().len() as int))
            // Outcome k is candidate k's: its status event closes candidate k's events.
            &&& exists|starts: Seq<int>, ends: Seq<int>| #[trigger] status_events(tr, starts, ends, t.action_outcomes@)
                && candidate_events(tr, starts, after.last_decision().unwrap().actions@)
            // One outcome per candidate the policy proposed, and the
            // policy's next state is the state committed and held.
            &&& after.last_decision() matches Some(d)
            &&& t.action_outcomes@.len() == after.last_decision().unwrap().actions@.len()
            // Without an escalation policy each outcome is the one owed: a
            // refused candidate's denial with exactly the refusing verdict,
            // an admitted one's gateway answer, in submission order.
            &&& (!before.escalates() ==> answers_applied(before.agent_spec(), after.last_constraint().unwrap(),
                    after.last_decision().unwrap().actions@, t.action_outcomes@,
                    after.gateway_answers().skip(before.gateway_answers().len() as int)))
            &&& after.current_state() == after.last_decision().unwrap().next_state
            // Each candidate, in order, between the opening events and the
            // recorded outcome: its verification start, result and status.
            &&& exists|starts: Seq<int>| #[trigger] candidate_events(tr, starts, after.last_decision().unwrap().actions@)
                && (forall|k: int| 0 <= k < starts.len() ==> e0 + 7 <= #[trigger] starts[k])
                && (starts.len() > 0 ==> starts.last() + 3 <= tr.len() - 3)
            &&& t.needs_approval == approval_needed(t.action_outcomes@)
            &&& (intervention_needed(false, t.action_outcomes@) ==> t.needs_intervention)
            &&& after.agent_spec() == (AgentContext { state_head: Some(t.state_commit.node_id), ..before.agent_spec() })
            &&& after.graph_head() == Some(t.state_commit.node_id)
            &&& after.graph_tick() == before.graph_tick() + 1
            &&& t.state_commit.tenant_id == Some(before.agent_spec().tenant_id)
            &&& t.state_commit.agent_id == Some(before.agent_spec().agent_id)
            &&& t.state_commit.run_id == Some(before.run())
            &&& tr.len() >= e0 + 9
            &&& tr[e0 as int] == (TraceEventKind::LoopTickStarted { tick_id })
            &&& opening_ok(tr, e0 as int, before.agent_spec().state_head, t.action_outcomes@.len())
            &&& tr.last() == (TraceEventKind::LoopTickCompleted { tick_id })
            &&& tr[tr.len() - 3] is OutcomeRecorded
            &&& (tr[tr.len() - 2] matches TraceEventKind::StateCommitted { state_node_id, .. } && state_node_id == t.state_commit.node_id)
        })
    }

    /// Executes one tick.
    ///
    /// The tick's trace starts with `LoopTickStarted`, records the percepts,
    /// the loaded state, the policy call, the proposed candidates and the
    /// constraint verdict, then each candidate's verification and result,
    /// the recorded outcome, and ends with `StateCommitted` for the new state
    /// node and `LoopTickCompleted`. The next state is committed as a child
    /// of the current head, and the agent's head moves to it. Any failure
    /// stops the tick and leaves the trace recorded so far in place.
    #[verifier::rlimit(100)]
    #[verifier::spinoff_prover]
    pub fn tick(&mut self, tick_id: u64) -> (r: Result<TickOutcome, LoopError>)
        requires
            old(self).graph_tick() < u64::MAX,
        ensures
            Self::tick_effect(*old(self), *final(self), tick_id, r),
    {
        let ghost t0 = self.trace();
        let ghost a0 = self.agent;
        let ghost s0 = self.submitted@;
        let ghost n0 = self.answers@;
        proof {
            self.decided@ = None;
            self.constrained@ = None;
        }
        let start = instant_now();
        self.record_tick_event(tick_id, TraceEventKind::LoopTickStarted { tick_id })?;
        let ghost t1 = self.trace();
        let percepts = self.collect_percepts()?;
        self.record_tick_event(tick_id, TraceEventKind::PerceptsReceived { count: percepts.len() as u64 })?;
        let head = self.agent.state_head;
        self.record_tick_event(tick_id, TraceEventKind::StateLoaded { state_node_id: head })?;
        let policy_name = self.policy.name();
        self.record_tick_event(tick_id, TraceEventKind::PolicyInvoked { policy: policy_name.clone() })?;
        let decision = self.policy.decide(&self.state, percepts.as_slice())?;
        proof { self.decided@ = Some(decision); }
        self.record_tick_event(tick_id, TraceEventKind::PolicyCompleted { policy: policy_name })?;
        let mut names: Vec<String> = Vec::new();
        let mut k: usize = 0;
        while k < decision.actions.len()
            invariant
                k <= decision.actions@.len(),
                names@.len() == k,
            decreases decision.actions@.len() - k,
        {
            names.push(decision.actions[k].action.name.clone());
            k = k + 1;
        }
        self.record_tick_event(tick_id, TraceEventKind::CandidatesProposed { actions: names })?;
        let constraint_evaluation = self.constraint_engine.evaluate(&self.state, percepts.as_slice(), decision.actions.as_slice());
        proof { self.constrained@ = Some(constraint_evaluation.result); }
        self.record_tick_event(tick_id, TraceEventKind::ConstraintsEvaluated { result: constraint_evaluation.result.duplicate() })?;
        let ghost t7 = self.trace();
        assert(t7.len() == t0.len() + 7);
        assert(t7[t0.len() as int] == (TraceEventKind::LoopTickStarted { tick_id }));
        assert(opening_ok(t7, t0.len() as int, old(self).agent_spec().state_head, decision.actions@.len()));

        let mut outcomes: Vec<ActionOutcome> = Vec::new();
        let mut escalations: Vec<EscalationContext> = Vec::new();
        let mut i: usize = 0;
        let ghost mut starts: Seq<int> = seq![];
        let ghost mut ends: Seq<int> = seq![];
        let ghost c = constraint_evaluation.result;
        assert(decision.actions@.take(0) =~= seq![]);
        assert(self.submitted@.skip(s0.len() as int) =~= seq![]);
        assert(self.answers@.skip(n0.len() as int) =~= seq![]);
        while i < decision.actions.len()
            invariant
                i <= decision.actions@.len(),
                n0 == old(self).answers@,
                self.escalates() == old(self).escalates(),
                extends(n0, self.answers@),
                outcomes@.len() == i,
                !old(self).escalates() ==> answers_applied(a0, c, decision.actions@.take(i as int), outcomes@,
                    self.answers@.skip(n0.len() as int)),
                decision.actions@.len() <= usize::MAX,
                self.agent == a0,
                a0 == old(self).agent,
                self.run() == old(self).run(),
                self.graph_tick() == old(self).graph_tick(),
                self.graph_head() == old(self).graph_head(),
                extends(t7, self.trace()),
                extends(t0, t7),
                t7.len() == t0.len() + 7,
                t7[t0.len() as int] == (TraceEventKind::LoopTickStarted { tick_id }),
                opening_ok(t7, t0.len() as int, old(self).agent_spec().state_head, decision.actions@.len()),
                outcomes@.len() == i,
                t0 == old(self).trace(),
                old(self).graph_tick() < u64::MAX,
                extends(old(self).submitted@, self.submitted@),
                own_requests(self.submitted@, old(self).submitted@.len() as int, old(self).agent, old(self).run()),
                self.decided@ == Some(decision),
                candidate_events(self.trace(), starts, decision.actions@.take(i as int)),
                no_commit_from(self.trace(), t0.len() as int),
                forall|k: int| 0 <= k < starts.len() ==> t7.len() <= #[trigger] starts[k],
                starts.len() > 0 ==> starts.last() + 3 <= self.trace().len(),
                self.constrained@ == Some(c),
                c == constraint_evaluation.result,
                s0 == old(self).submitted@,
                self.state == old(self).state,
                candidates_handled(a0, old(self).run(), tick_id, c, decision.actions@.take(i as int), outcomes@,
                    self.submitted@.skip(s0.len() as int)),
                status_events(self.trace(), starts, ends, outcomes@),
                starts.len() > 0 ==> ends.last() < self.trace().len(),
            decreases decision.actions@.len() - i,
        {
            let ghost tr_before = self.trace();
            let ghost sub_before = self.submitted@;
            let ghost ans_before = self.answers@;
            let ghost out_before = outcomes@;
            let (outcome, mut action_escalations) = self.process_candidate(tick_id, i as u64, &decision.actions[i], &constraint_evaluation.result)?;
            proof {
                let sb = sub_before.skip(s0.len() as int);
                let sa = self.submitted@.skip(s0.len() as int);
                if admitted(a0, c, decision.actions@[i as int]) {
                    assert(sa.drop_last() =~= sb);
                    assert(sa.last() == self.submitted@.last());
                } else {
                    assert(sa =~= sb);
                }
                lemma_candidate_step(a0, old(self).run(), tick_id, c, decision.actions@, i as int, out_before, outcome, sb, sa);
                if !old(self).escalates() {
                    let nb = ans_before.skip(n0.len() as int);
                    let na = self.answers@.skip(n0.len() as int);
                    if admitted(a0, c, decision.actions@[i as int]) {
                        assert(na.drop_last() =~= nb);
                        assert(na.last() == self.answers@.last());
                    } else {
                        assert(na =~= nb);
                    }
                    lemma_answer_step(a0, c, decision.actions@, i as int, out_before, outcome, nb, na);
                }
                let tr = self.trace();
                let ne = ends.push(tr.len() - 1);
                let ns0 = starts.push(tr_before.len() as int);
                let no = out_before.push(outcome);
                assert forall|k: int| 0 <= k < ne.len() implies {
                    &&& ns0[k] + 2 <= #[trigger] ne[k] < tr.len()
                    &&& (k + 1 < ne.len() ==> ne[k] < ns0[k + 1])
                    &&& status_event(no[k].status, tr[ne[k]])
                } by {
                    if k < ends.len() {
                        assert(ne[k] == ends[k]);
                        assert(no[k] == out_before[k]);
                        assert(tr[ends[k]] == tr_before[ends[k]]);
                    }
                }
                ends = ne;
            }
            proof {
                let tr = self.trace();
                let acts = decision.actions@.take(i as int + 1);
                let ns = starts.push(tr_before.len() as int);
                assert(decision.actions@.take(i as int) =~= acts.drop_last());
                assert forall|k: int| 0 <= k < ns.len() implies {
                    &&& #[trigger] ns[k] + 3 <= tr.len()
                    &&& (k + 1 < ns.len() ==> ns[k] + 3 <= ns[k + 1])
                    &&& tr[ns[k]] matches TraceEventKind::ActionVerificationStarted { action } && action@ == acts[k].action.name@
                    &&& tr[ns[k] + 1] matches TraceEventKind::ActionVerificationCompleted { action, .. } && action@ == acts[k].action.name@
                } by {
                    if k < starts.len() {
                        assert(ns[k] == starts[k]);
                        assert(acts[k] == decision.actions@.take(i as int)[k]);
                        assert(tr[starts[k]] == tr_before[starts[k]]);
                        assert(tr[starts[k] + 1] == tr_before[starts[k] + 1]);
                    } else {
                        assert(acts[k] == decision.actions@[i as int]);
                    }
                }
                starts = ns;
            }
            escalations.append(&mut action_escalations);
            outcomes.push(outcome);
            i = i + 1;
            proof {
                assert(outcomes@ == out_before.push(outcome));
            }
        }

        let ghost tl = self.trace();
        proof { assert(decision.actions@.take(i as int) =~= decision.actions@); }
        let (feedback, reward) = self.evaluate_outcomes(&decision, &outcomes);
        let duration_ms = elapsed_millis(&start);
        let needs_intervention = tick_needs_intervention(escalations.as_slice(), &outcomes);
        let needs_approval = tick_needs_approval(&outcomes);
        let mut payload = Json::object();
        payload.insert(String::from_str("tick_id"), Json::UInt(tick_id));
        payload.insert(String::from_str("duration_ms"), Json::UInt(duration_ms));
        payload.insert(String::from_str("needs_intervention"), Json::Bool(needs_intervention));
        payload.insert(String::from_str("needs_approval"), Json::Bool(needs_approval));
        let mut escalation_items: Vec<Json> = Vec::new();
        let mut e: usize = 0;
        while e < escalations.len()
            invariant
                e <= escalations@.len(),
            decreases escalations@.len() - e,
        {
            escalation_items.push(escalation_json(&escalations[e]));
            e = e + 1;
        }
        payload.insert(String::from_str("escalations"), Json::Array(escalation_items));
        let mut action_items: Vec<Json> = Vec::new();
        let mut q: usize = 0;
        while q < outcomes.len()
            invariant
                q <= outcomes@.len(),
            decreases outcomes@.len() - q,
        {
            action_items.push(outcome_json(&outcomes[q]));
            q = q + 1;
        }
        payload.insert(String::from_str("actions"), Json::Array(action_items));
        match feedback {
            Some(f) => payload.insert(String::from_str("feedback"), Json::Str(f)),
            None => {},
        }
        match reward {
            Some(v) => payload.insert(String::from_str("reward"), Json::Int(v)),
            None => {},
        }
        self.record_tick_event(tick_id, TraceEventKind::OutcomeRecorded { outcome: payload })?;

        let state_trace_event_id = TraceEventId::from_run_sequence(&self.runtime.run_id(), self.runtime.next_sequence());
        let metadata = StateMetadata {
            created_at: decision.metadata.created_at,
            label: match &decision.metadata.label { Some(l) => Some(l.clone()), None => None },
            tenant_id: Some(self.agent.tenant_id),
            agent_id: Some(self.agent.agent_id),
            run_id: Some(self.runtime.run_id()),
            trace_event_id: Some(state_trace_event_id),
        };
        let next_state = decision.next_state.clone();
        let commit = match self.state_graph.commit(next_state, metadata) {
            Ok(c) => c,
            Err(err) => return Err(LoopError::StateGraph(err)),
        };
        self.state = decision.next_state;
        self.agent.set_state_head(commit.node_id);
        let mut identity = self.tick_identity(tick_id);
        identity.state_node_id = Some(commit.node_id);
        match self.runtime.record_event_with_identity(identity, TraceEventKind::StateCommitted {
            state_node_id: commit.node_id,
            snapshot_id: commit.snapshot_id,
        }) {
            Ok(_) => {},
            Err(err) => return Err(LoopError::Trace(err)),
        }
        self.record_tick_event(tick_id, TraceEventKind::LoopTickCompleted { tick_id })?;
        proof {
            let tr = self.trace();
            assert(tr.len() == tl.len() + 3);
            assert forall|k: int| 0 <= k < starts.len() implies {
                &&& #[trigger] starts[k] + 3 <= tr.len()
                &&& (k + 1 < starts.len() ==> starts[k] + 3 <= starts[k + 1])
                &&& tr[starts[k]] matches TraceEventKind::ActionVerificationStarted { action } && action@ == decision.actions@[k].action.name@
                &&& tr[starts[k] + 1] matches TraceEventKind::ActionVerificationCompleted { action, .. } && action@ == decision.actions@[k].action.name@
            } by {
                assert(tr[starts[k]] == tl[starts[k]]);
                assert(tr[starts[k] + 1] == tl[starts[k] + 1]);
            }
            assert(candidate_events(tr, starts, decision.actions@));
            assert forall|k: int| 0 <= k < ends.len() implies {
                &&& starts[k] + 2 <= #[trigger] ends[k] < tr.len()
                &&& (k + 1 < ends.len() ==> ends[k] < starts[k + 1])
                &&& status_event(outcomes@[k].status, tr[ends[k]])
            } by {
                assert(tr[ends[k]] == tl[ends[k]]);
            }
            assert(status_events(tr, starts, ends, outcomes@));
            assert(self.constrained@ == Some(c));
            assert(self.decided@ == Some(decision));
            assert(candidates_handled(a0, old(self).run(), tick_id, c, decision.actions@, outcomes@, self.submitted@.skip(s0.len() as int)));
        }
        let t = TickOutcome {
            tick_id,
            action_outcomes: outcomes,
            state_commit: commit,
            duration_ms,
            needs_intervention,
            needs_approval,
        };
        proof {
            let tr = self.trace();
            assert(self.last_constraint() matches Some(c));
            assert(candidates_handled(old(self).agent_spec(), old(self).run(), tick_id, self.last_constraint().unwrap(),
                self.last_decision().unwrap().actions@, t.action_outcomes@,
                self.submitted_requests().skip(old(self).submitted_requests().len() as int)));
            assert(status_events(tr, starts, ends, t.action_outcomes@) && candidate_events(tr, starts, self.last_decision().unwrap().actions@));
        }
        Ok(t)
    }
}

/// The last snapshot committed among `kinds`, if any.
pub open spec fn last_snapshot(kinds: Seq<TraceEventKind>) -> Option<crate::state::SnapshotId>
    decreases kinds.len(),
{
    if kinds.len() == 0 {
        None
    } else {
        match kinds.last() {
            TraceEventKind::StateCommitted { snapshot_id: Some(sid), .. } => Some(sid),
            _ => last_snapshot(kinds.drop_last()),
        }
    }
}

/// The last completed tick among `kinds`, if any.
pub open spec fn last_completed_tick(kinds: Seq<TraceEventKind>) -> Option<u64>
    decreases kinds.len(),
{
    if kinds.len() == 0 {
        None
    } else {
        match kinds.last() {
            TraceEventKind::LoopTickCompleted { tick_id } => Some(tick_id),
            _ => last_completed_tick(kinds.drop_last()),
        }
    }
}

impl<S: TraceSink, G: ActionGateway, St: StateStore> LoopEngine<S, G, St> {
    /// An engine recording into a trace store, through `sink`, for which the
    /// store holds events of the run up to `latest_sequence`; the run is the
    /// given one, else `fresh_run_id`.
    pub fn with_trace_store(
        agent: AgentContext,
        state_graph: StateGraph<St>,
        state: StateData,
        policy: Box<dyn Policy>,
        gateway: G,
        sink: S,
        latest_sequence: Option<u64>,
        run_id: Option<crate::ids::RunId>,
        fresh_run_id: crate::ids::RunId,
    ) -> (r: Result<Self, LoopError>)
        ensures
            latest_sequence == Some(u64::MAX) ==> (r matches Err(LoopError::Trace(TraceError::SequenceOverflow(s))) && s == u64::MAX),
            r matches Ok(e) ==> {
                &&& e.run() == (match run_id { Some(id) => id, None => fresh_run_id })
                &&& e.trace() == opening_events(latest_sequence, None)
                &&& e.agent_spec().agent_id == agent.agent_id
                &&& e.agent_spec().tenant_id == agent.tenant_id
                &&& e.agent_spec().config.metadata == agent.config.metadata
                &&& e.graph_head() == state_graph.head_spec()
                &&& e.graph_tick() == state_graph.tick_spec()
            },
    {
        Self::with_trace_store_and_work_order(agent, state_graph, state, policy, gateway, sink, latest_sequence, fresh_run_id, RunTraceContext::new(run_id))
    }

    /// An engine recording into a trace store, through `sink`, for which the
    /// store holds events of the run up to `latest_sequence`. The run is the
    /// context's, else `fresh_run_id`; numbering continues after the stored
    /// events. A run with no stored event records `RunStarted`; a work order
    /// is noted in the agent's metadata as `work_order_id` and recorded as
    /// `WorkOrderAccepted`.
    pub fn with_trace_store_and_work_order(
        agent: AgentContext,
        state_graph: StateGraph<St>,
        state: StateData,
        policy: Box<dyn Policy>,
        gateway: G,
        sink: S,
        latest_sequence: Option<u64>,
        fresh_run_id: crate::ids::RunId,
        context: RunTraceContext,
    ) -> (r: Result<Self, LoopError>)
        ensures
            latest_sequence == Some(u64::MAX) ==> (r matches Err(LoopError::Trace(TraceError::SequenceOverflow(s))) && s == u64::MAX),
            r matches Ok(e) ==> {
                &&& e.run() == (match context.run_id { Some(id) => id, None => fresh_run_id })
                &&& e.trace() == opening_events(latest_sequence, context.work_order)
                &&& e.agent_spec().agent_id == agent.agent_id
                &&& e.agent_spec().tenant_id == agent.tenant_id
                &&& e.agent_spec().delegated_authority == agent.delegated_authority
                &&& (match context.work_order {
                    Some(w) => exists|key: String, value: String| key@ == "work_order_id"@ && value@ == uuid_text(w.work_order_id)
                        && metadata_updated(agent.config.metadata@, key, value, e.agent_spec().config.metadata@),
                    None => e.agent_spec().config.metadata == agent.config.metadata,
                })
                &&& e.graph_head() == state_graph.head_spec()
                &&& e.graph_tick() == state_graph.tick_spec()
            },
    {
        let mut agent = agent;
        let run_id = match context.run_id {
            Some(id) => id,
            None => fresh_run_id,
        };
        let initial_sequence = match resume_sequence(latest_sequence) {
            Ok(s) => s,
            Err(e) => return Err(LoopError::Trace(e)),
        };
        let mut runtime = KernelRuntime::new(KernelRuntimeConfig { trace_sink: sink, run_id, initial_sequence });
        if runtime.next_sequence() == 0 {
            if let Err(e) = runtime.record_event(TraceEventKind::RunStarted) {
                return Err(LoopError::Trace(e));
            }
        }
        let ghost opened = runtime.events();
        if let Some(work_order) = &context.work_order {
            let key = String::from_str("work_order_id");
            let value = uuid_string(work_order.work_order_id);
            let ghost (k, v) = (key, value);
            agent.config.set_metadata(key, value);
            let kind = TraceEventKind::WorkOrderAccepted {
                work_order_id: work_order.work_order_id,
                tenant_id: work_order.tenant_id,
                agent_id: work_order.agent_id,
                run_id: work_order.run_id,
            };
            if let Err(e) = runtime.record_event(kind) {
                return Err(LoopError::Trace(e));
            }
            proof {
                reveal_strlit("work_order_id");
                assert(k@ == "work_order_id"@);
                assert(runtime.events() =~= opening_events(latest_sequence, context.work_order));
            }
        } else {
            proof {
                assert(runtime.events() =~= opening_events(latest_sequence, context.work_order));
            }
        }
        Ok(Self::with_runtime(agent, state_graph, state, policy, gateway, runtime))
    }

    /// Resumes a persisted run from its stored events: the engine opens as
    /// `with_trace_store_and_work_order` does, then restores the last
    /// committed snapshot and continues the tick count after the last
    /// completed tick. Events without a snapshot cannot be resumed.
    pub fn resume_from_trace_store_with_work_order(
        agent: AgentContext,
        state_graph: StateGraph<St>,
        policy: Box<dyn Policy>,
        gateway: G,
        sink: S,
        events: &[TraceEvent],
        latest_sequence: Option<u64>,
        run_id: crate::ids::RunId,
        work_order: Option<WorkOrderAuthorization>,
    ) -> (r: Result<Self, LoopError>)
        ensures
            last_snapshot(crate::delegation::kinds(events@)) is None ==> (r matches Err(LoopError::Resume(m)) && m@ == "no snapshot found in trace history"@),
            r matches Ok(e) ==> {
                &&& e.run() == run_id
                &&& e.trace() == opening_events(latest_sequence, work_order)
                &&& e.agent_spec().agent_id == agent.agent_id
                &&& e.agent_spec().tenant_id == agent.tenant_id
                &&& e.graph_head() is Some
                &&& e.agent_spec().state_head == e.graph_head()
                &&& e.graph_tick() == match last_completed_tick(crate::delegation::kinds(events@)) { Some(t) => t, None => 0 }
            },
    {
        let context = RunTraceContext::new(Some(run_id));
        let context = match work_order {
            Some(w) => context.with_work_order(w),
            None => context,
        };
        let resume = resume_info(events)?;
        let empty = StateData { bytes: Vec::new(), content_type: None };
        let mut engine = Self::with_trace_store_and_work_order(agent, state_graph, empty, policy, gateway, sink, latest_sequence, run_id, context)?;
        engine.restore_snapshot(&resume.snapshot_id)?;
        engine.state_graph.set_tick(resume.tick_id);
        Ok(engine)
    }

    /// Resumes a persisted run from its stored events without work-order
    /// authority.
    pub fn resume_from_trace_store(
        agent: AgentContext,
        state_graph: StateGraph<St>,
        policy: Box<dyn Policy>,
        gateway: G,
        sink: S,
        events: &[TraceEvent],
        latest_sequence: Option<u64>,
        run_id: crate::ids::RunId,
    ) -> (r: Result<Self, LoopError>)
        ensures
            last_snapshot(crate::delegation::kinds(events@)) is None ==> (r matches Err(LoopError::Resume(m)) && m@ == "no snapshot found in trace history"@),
            r matches Ok(e) ==> {
                &&& e.run() == run_id
                &&& e.trace() == opening_events(latest_sequence, None)
                &&& e.graph_head() is Some
                &&& e.agent_spec().state_head == e.graph_head()
                &&& e.graph_tick() == match last_completed_tick(crate::delegation::kinds(events@)) { Some(t) => t, None => 0 }
            },
    {
        Self::resume_from_trace_store_with_work_order(agent, state_graph, policy, gateway, sink, events, latest_sequence, run_id, None)
    }
}

/// Where a run resumes: the most recent snapshot committed in its trace and
/// the most recent completed tick (0 when none); a trace without a snapshot
/// cannot be resumed.
pub fn resume_info(events: &[TraceEvent]) -> (r: Result<ResumeInfo, LoopError>)
    ensures
        last_snapshot(crate::delegation::kinds(events@)) is None <==> r is Err,
        r matches Err(LoopError::Resume(m)) ==> m@ == "no snapshot found in trace history"@,
        r is Err ==> (r matches Err(LoopError::Resume(_))),
        r matches Ok(info) ==> Some(info.snapshot_id) == last_snapshot(crate::delegation::kinds(events@))
            && info.tick_id == match last_completed_tick(crate::delegation::kinds(events@)) { Some(t) => t, None => 0 },
{
    let mut snapshot_id: Option<crate::state::SnapshotId> = None;
    let mut tick_id: Option<u64> = None;
    let mut i: usize = 0;
    while i < events.len()
        invariant
            i <= events@.len(),
            snapshot_id == last_snapshot(crate::delegation::kinds(events@).take(i as int)),
            tick_id == last_completed_tick(crate::delegation::kinds(events@).take(i as int)),
        decreases events@.len() - i,
    {
        let ghost pre = crate::delegation::kinds(events@).take(i as int + 1);
        assert(pre.drop_last() =~= crate::delegation::kinds(events@).take(i as int));
        assert(pre.last() == events@[i as int].kind);
        match &events[i].kind {
            TraceEventKind::StateCommitted { snapshot_id: Some(sid), .. } => snapshot_id = Some(*sid),
            TraceEventKind::LoopTickCompleted { tick_id: t } => tick_id = Some(*t),
            _ => {},
        }
        i = i + 1;
    }
    assert(crate::delegation::kinds(events@).take(events@.len() as int) =~= crate::delegation::kinds(events@));
    match snapshot_id {
        None => Err(LoopError::Resume(String::from_str("no snapshot found in trace history"))),
        Some(sid) => Ok(ResumeInfo {
            snapshot_id: sid,
            tick_id: match tick_id { Some(t) => t, None => 0 },
        }),
    }
}

impl<S: TraceSink, G: ActionGateway, St: StateStore> LoopEngine<S, G, St> {
    /// Restores state from a snapshot and moves the agent's head to it.
    pub fn restore_snapshot(&mut self, snapshot_id: &crate::state::SnapshotId) -> (r: Result<(), LoopError>)
        ensures
            final(self).trace() == old(self).trace(),
            final(self).run() == old(self).run(),
            r is Ok ==> final(self).graph_head() is Some
                && final(self).agent_spec() == (AgentContext { state_head: final(self).graph_head(), ..old(self).agent_spec() }),
            r is Err ==> final(self).agent_spec() == old(self).agent_spec() && final(self).graph_head() == old(self).graph_head()
                && (r matches Err(LoopError::StateGraph(crate::state::StateGraphError::Store(_)))),
            final(self).graph_tick() == old(self).graph_tick(),
    {
        match self.state_graph.restore_snapshot(snapshot_id) {
            Ok(snapshot) => {
                self.state = snapshot.state;
                self.agent.set_state_head(snapshot.node_id);
                Ok(())
            },
            Err(e) => Err(LoopError::StateGraph(e)),
        }
    }

    /// Resumes from the trace: restores the last snapshot and continues the
    /// tick count after the last completed tick.
    pub fn resume_from_events(&mut self, events: &[TraceEvent]) -> (r: Result<ResumeInfo, LoopError>)
        ensures
            final(self).trace() == old(self).trace(),
            last_snapshot(crate::delegation::kinds(events@)) is None ==> (r matches Err(LoopError::Resume(m))
                && m@ == "no snapshot found in trace history"@)
                && final(self).agent_spec() == old(self).agent_spec() && final(self).graph_head() == old(self).graph_head()
                && final(self).graph_tick() == old(self).graph_tick(),
            last_snapshot(crate::delegation::kinds(events@)) is Some && r is Err
                ==> (r matches Err(LoopError::StateGraph(crate::state::StateGraphError::Store(_))))
                && final(self).agent_spec() == old(self).agent_spec() && final(self).graph_head() == old(self).graph_head()
                && final(self).graph_tick() == old(self).graph_tick(),
            r matches Ok(info) ==> final(self).graph_tick() == info.tick_id
                && Some(info.snapshot_id) == last_snapshot(crate::delegation::kinds(events@))
                && info.tick_id == match last_completed_tick(crate::delegation::kinds(events@)) { Some(t) => t, None => 0 }
                && final(self).graph_head() is Some
                && final(self).agent_spec() == (AgentContext { state_head: final(self).graph_head(), ..old(self).agent_spec() }),
    {
        let info = resume_info(events)?;
        self.restore_snapshot(&info.snapshot_id)?;
        self.state_graph.set_tick(info.tick_id);
        Ok(info)
    }
}

} // verus!
