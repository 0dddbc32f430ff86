//! The action gateway: every side-effectful action passes identity, adapter,
//! tenant policy, invariant, approval and quota checks before an adapter runs,
//! and postconditions are checked after it ran.

use vstd::prelude::*;
use crate::action::Action;
use crate::approval::{ApprovalEvidence, ApprovalVerification, ApprovalVerifier, PolicyApprovalVerifier};
use crate::clock::{Timestamp, now_utc};
use crate::ids::{ActionId, AgentId, RunId, TenantId};
use crate::json::{Json, json_get};
use crate::quota::{QuotaUsage, reason_if};
use crate::textual::uuid_string;
use crate::verification::{VerificationResult, strs, copy_strings};

verus! {

/// A request submitted to the gateway.
#[derive(Debug)]
pub struct ActionRequest {
    pub action_id: ActionId,
    pub tenant_id: TenantId,
    pub agent_id: AgentId,
    pub run_id: RunId,
    pub action: Action,
    pub adapter: Option<String>,
    pub quota_usage: QuotaUsage,
    pub satisfied_preconditions: Vec<String>,
    pub requested_at: Timestamp,
    pub approval_evidence: Option<ApprovalEvidence>,
}

/// The identity field found missing.
#[derive(Clone, Copy, Debug, PartialEq, Eq, Structural)]
pub enum IdentityField {
    ActionId,
    TenantId,
    AgentId,
    RunId,
}

/// Identity validation failure.
#[derive(Clone, Copy, Debug, PartialEq, Eq, Structural)]
pub enum IdentityValidationError {
    Missing(IdentityField),
}

/// The description of a missing identity field.
pub open spec fn identity_error_text(e: IdentityValidationError) -> Seq<char> {
    match e {
        IdentityValidationError::Missing(IdentityField::ActionId) => "missing identity field: action_id"@,
        IdentityValidationError::Missing(IdentityField::TenantId) => "missing identity field: tenant_id"@,
        IdentityValidationError::Missing(IdentityField::AgentId) => "missing identity field: agent_id"@,
        IdentityValidationError::Missing(IdentityField::RunId) => "missing identity field: run_id"@,
    }
}

impl IdentityValidationError {
    /// Human-readable description.
    pub fn message(&self) -> (r: String)
        ensures
            r@ == identity_error_text(*self),
    {
        match self {
            IdentityValidationError::Missing(IdentityField::ActionId) => String::from_str("missing identity field: action_id"),
            IdentityValidationError::Missing(IdentityField::TenantId) => String::from_str("missing identity field: tenant_id"),
            IdentityValidationError::Missing(IdentityField::AgentId) => String::from_str("missing identity field: agent_id"),
            IdentityValidationError::Missing(IdentityField::RunId) => String::from_str("missing identity field: run_id"),
        }
    }
}

/// The identity check on a request: the first nil identifier, in the order
/// action, tenant, agent, run.
pub open spec fn identity_error(r: ActionRequest) -> Option<IdentityValidationError> {
    if r.action_id.value == 0 {
        Some(IdentityValidationError::Missing(IdentityField::ActionId))
    } else if r.tenant_id.value == 0 {
        Some(IdentityValidationError::Missing(IdentityField::TenantId))
    } else if r.agent_id.value == 0 {
        Some(IdentityValidationError::Missing(IdentityField::AgentId))
    } else if r.run_id.value == 0 {
        Some(IdentityValidationError::Missing(IdentityField::RunId))
    } else {
        None
    }
}

impl ActionRequest {
    /// Rejects requests carrying a nil action, tenant, agent or run identifier.
    pub fn validate_identity(&self) -> (r: Result<(), IdentityValidationError>)
        ensures
            r is Ok <==> identity_error(*self) is None,
            r matches Err(e) ==> identity_error(*self) == Some(e),
    {
        if self.action_id.is_nil() {
            return Err(IdentityValidationError::Missing(IdentityField::ActionId));
        }
        if self.tenant_id.is_nil() {
            return Err(IdentityValidationError::Missing(IdentityField::TenantId));
        }
        if self.agent_id.is_nil() {
            return Err(IdentityValidationError::Missing(IdentityField::AgentId));
        }
        if self.run_id.is_nil() {
            return Err(IdentityValidationError::Missing(IdentityField::RunId));
        }
        Ok(())
    }
}

/// Final classification of a submitted action.
#[derive(Clone, Copy, Debug, PartialEq, Eq, Structural)]
pub enum ActionStatus {
    Executed,
    Denied,
    NeedsApproval,
    NeedsIntervention,
    Failed,
}

/// What the gateway reports for a submitted action.
#[derive(Debug)]
pub struct ActionOutcome {
    pub action_id: ActionId,
    pub status: ActionStatus,
    pub verification: VerificationResult,
    pub post_verification: Option<VerificationResult>,
    pub output: Option<Json>,
    pub error: Option<String>,
    pub completed_at: Timestamp,
}

/// Result returned by adapters.
#[derive(Debug)]
pub struct AdapterResult {
    pub output: Json,
    pub satisfied_postconditions: Vec<String>,
}

/// Adapter execution failure.
#[derive(Debug)]
pub enum AdapterError {
    Failed(String),
}

impl AdapterError {
    /// Human-readable description: `adapter failed: <detail>`.
    pub fn message(&self) -> (r: String)
        ensures
            match self {
                AdapterError::Failed(d) => r@ == "adapter failed: "@ + d@,
            },
    {
        match self {
            AdapterError::Failed(d) => String::from_str("adapter failed: ").concat(d.as_str()),
        }
    }
}

/// Gateway-level failure.
#[derive(Debug)]
pub enum GatewayError {
    Unimplemented,
    VerificationFailed(String),
    AdapterFailed(String),
}

impl GatewayError {
    /// Human-readable description, which carries the detail text.
    pub fn message(&self) -> (r: String)
        ensures
            match self {
                GatewayError::Unimplemented => r@ == "gateway is not implemented yet"@,
                GatewayError::VerificationFailed(d) => r@ == "action verification failed: "@ + d@,
                GatewayError::AdapterFailed(d) => r@ == "adapter execution failed: "@ + d@,
            },
    {
        match self {
            GatewayError::Unimplemented => String::from_str("gateway is not implemented yet"),
            GatewayError::VerificationFailed(d) => String::from_str("action verification failed: ").concat(d.as_str()),
            GatewayError::AdapterFailed(d) => String::from_str("adapter execution failed: ").concat(d.as_str()),
        }
    }
}

/// Executes side-effectful actions on behalf of the gateway.
pub trait ActionAdapter {
    fn execute(&self, action: &ActionRequest) -> Result<AdapterResult, AdapterError>;
}

/// Tenant policy and quota checks consulted by the gateway. Charging quota
/// may change the implementor's state.
pub trait TenantAccess {
    fn verify_policy(&self, tenant_id: &TenantId, agent_id: &AgentId, action: &Action, adapter: Option<&String>) -> VerificationResult;

    fn verify_quota(&mut self, tenant_id: &TenantId, agent_id: &AgentId, usage: QuotaUsage) -> VerificationResult;
}

/// Precondition/postcondition checks.
pub trait InvariantEvaluator {
    fn verify_pre(&self, action: &Action, satisfied_preconditions: &[String]) -> VerificationResult;

    fn verify_post(&self, action: &Action, satisfied_postconditions: &[String]) -> VerificationResult;
}

/// Synchronous gateway interface.
pub trait ActionGateway {
    fn submit(&mut self, action: ActionRequest) -> Result<ActionOutcome, GatewayError>;
}

/// The entries of `expected` that `satisfied` does not hold, in order.
pub open spec fn absent_from(expected: Seq<Seq<char>>, satisfied: Seq<Seq<char>>) -> Seq<Seq<char>>
    decreases expected.len(),
{
    if expected.len() == 0 {
        seq![]
    } else {
        let rest = absent_from(expected.drop_last(), satisfied);
        if satisfied.contains(expected.last()) { rest } else { rest.push(expected.last()) }
    }
}

fn contains_string(list: &[String], value: &String) -> (r: bool)
    ensures
        r == strs(list@).contains(value@),
{
    let mut i: usize = 0;
    while i < list.len()
        invariant
            i <= list@.len(),
            forall|j: int| 0 <= j < i ==> #[trigger] list@[j]@ != value@,
        decreases list@.len() - i,
    {
        if list[i] == *value {
            assert(strs(list@)[i as int] == value@);
            return true;
        }
        i = i + 1;
    }
    false
}

/// Checks that every expected condition is satisfied. Denials carry `reason`.
pub fn check_conditions(reason: &str, expected: &[String], satisfied: &[String]) -> (r: VerificationResult)
    ensures
        r.allowed == (absent_from(strs(expected@), strs(satisfied@)).len() == 0),
        strs(r.reasons@) == reason_if(!r.allowed, reason@),
{
    if expected.len() == 0 {
        assert(strs(expected@).len() == 0);
        return VerificationResult::allow();
    }
    let mut missing: Vec<String> = Vec::new();
    let mut i: usize = 0;
    while i < expected.len()
        invariant
            i <= expected@.len(),
            strs(missing@) == absent_from(strs(expected@).take(i as int), strs(satisfied@)),
        decreases expected@.len() - i,
    {
        let ghost prefix = strs(expected@).take(i as int + 1);
        assert(prefix.drop_last() =~= strs(expected@).take(i as int));
        if !contains_string(satisfied, &expected[i]) {
            missing.push(expected[i].clone());
            assert(strs(missing@) =~= absent_from(prefix, strs(satisfied@)));
        }
        i = i + 1;
    }
    assert(strs(expected@).take(expected@.len() as int) =~= strs(expected@));
    if missing.len() == 0 {
        return VerificationResult::allow();
    }
    let mut reasons: Vec<String> = Vec::new();
    reasons.push(String::from_str(reason));
    assert(strs(reasons@) =~= seq![reason@]);
    let mut artifacts = Json::object();
    artifacts.insert(String::from_str("expected"), Json::string_array(expected));
    artifacts.insert(String::from_str("satisfied"), Json::string_array(satisfied));
    artifacts.insert(String::from_str("missing"), Json::string_array(&missing));
    VerificationResult { allowed: false, reasons, artifacts }
}

/// Invariant evaluator that compares declared conditions with the satisfied
/// lists.
pub struct SimpleInvariantEvaluator;

impl SimpleInvariantEvaluator {
    pub fn pre(&self, action: &Action, satisfied_preconditions: &[String]) -> (r: VerificationResult)
        ensures
            r.allowed == (absent_from(strs(action.preconditions@), strs(satisfied_preconditions@)).len() == 0),
            strs(r.reasons@) == reason_if(!r.allowed, "precondition_missing"@),
    {
        check_conditions("precondition_missing", &action.preconditions, satisfied_preconditions)
    }

    pub fn post(&self, action: &Action, satisfied_postconditions: &[String]) -> (r: VerificationResult)
        ensures
            r.allowed == (absent_from(strs(action.postconditions@), strs(satisfied_postconditions@)).len() == 0),
            strs(r.reasons@) == reason_if(!r.allowed, "postcondition_missing"@),
    {
        check_conditions("postcondition_missing", &action.postconditions, satisfied_postconditions)
    }
}

/// Whether every condition in `expected` is among `satisfied`; when one is
/// missing, `reason` alone.
pub open spec fn simple_verdict(expected: Seq<Seq<char>>, satisfied: Seq<Seq<char>>, reason: Seq<char>) -> (bool, Seq<Seq<char>>) {
    let ok = absent_from(expected, satisfied).len() == 0;
    (ok, reason_if(!ok, reason))
}

impl InvariantEvaluator for SimpleInvariantEvaluator {
    fn verify_pre(&self, action: &Action, satisfied_preconditions: &[String]) -> (r: VerificationResult)
        ensures
            r.allowed == (absent_from(strs(action.preconditions@), strs(satisfied_preconditions@)).len() == 0),
            strs(r.reasons@) == reason_if(!r.allowed, "precondition_missing"@),
    {
        self.pre(action, satisfied_preconditions)
    }

    fn verify_post(&self, action: &Action, satisfied_postconditions: &[String]) -> (r: VerificationResult)
        ensures
            r.allowed == (absent_from(strs(action.postconditions@), strs(satisfied_postconditions@)).len() == 0),
            strs(r.reasons@) == reason_if(!r.allowed, "postcondition_missing"@),
    {
        self.post(action, satisfied_postconditions)
    }
}

/// Reasons of a combination: the reasons of each denied result, in order.
pub open spec fn denied_reasons(results: Seq<(String, VerificationResult)>) -> Seq<Seq<char>>
    decreases results.len(),
{
    if results.len() == 0 {
        seq![]
    } else {
        let rest = denied_reasons(results.drop_last());
        let last = results.last().1;
        if last.allowed { rest } else { rest + strs(last.reasons@) }
    }
}

pub open spec fn all_allowed(results: Seq<(String, VerificationResult)>) -> bool {
    forall|i: int| 0 <= i < results.len() ==> (#[trigger] results[i]).1.allowed
}

/// The evidence the last denied result labelled `k` among `results` carries,
/// when it carries any.
pub open spec fn denied_artifact(results: Seq<(String, VerificationResult)>, k: Seq<char>) -> Option<Json>
    decreases results.len(),
{
    if results.len() == 0 {
        None
    } else {
        let last = results.last();
        if !last.1.allowed && !(last.1.artifacts is Null) && last.0@ == k {
            Some(last.1.artifacts)
        } else {
            denied_artifact(results.drop_last(), k)
        }
    }
}

/// Combines labelled results: allowed only if every result is. Denied
/// results contribute their reasons, and their evidence under their label.
pub fn combine_verifications(results: Vec<(String, VerificationResult)>) -> (r: VerificationResult)
    ensures
        r.allowed == all_allowed(results@),
        strs(r.reasons@) == if r.allowed { seq![] } else { denied_reasons(results@) },
        r.allowed ==> r.artifacts is Null,
        !r.allowed ==> r.artifacts is Object,
        !r.allowed ==> forall|k: Seq<char>| #[trigger] json_get(r.artifacts, k) == denied_artifact(results@, k),
{
    let ghost all = results@;
    let mut reasons: Vec<String> = Vec::new();
    let mut artifacts = Json::object();
    let mut denied = false;
    let mut results = results;
    let total = results.len();
    proof {
        assert forall|k: Seq<char>| #[trigger] json_get(artifacts, k) == denied_artifact(all.take(0), k) by {
            assert(all.take(0).len() == 0);
        }
    }
    assert(all.len() == total);
    let mut n: usize = 0;
    while results.len() > 0
        invariant
            n + results@.len() == all.len(),
            all.len() <= usize::MAX,
            results@ == all.subrange(n as int, all.len() as int),
            strs(reasons@) == denied_reasons(all.take(n as int)),
            denied == !all_allowed(all.take(n as int)),
            artifacts is Object,
            forall|k: Seq<char>| #[trigger] json_get(artifacts, k) == denied_artifact(all.take(n as int), k),
        decreases results@.len(),
    {
        let (label, result) = results.remove(0);
        let ghost item = all[n as int];
        assert(all.subrange(n as int, all.len() as int)[0] == item);
        assert(all.subrange(n as int, all.len() as int).remove(0) =~= all.subrange(n as int + 1, all.len() as int));
        assert(all.take(n as int + 1).drop_last() =~= all.take(n as int));
        assert(all.take(n as int + 1).last() == item);
        let ghost a_before = artifacts;
        if !result.allowed {
            denied = true;
            crate::tenancy::append_strings(&mut reasons, &result.reasons);
            if !result.artifacts.is_null() {
                artifacts.insert(label, result.artifacts);
            }
        }
        proof {
            assert forall|k: Seq<char>| #[trigger] json_get(artifacts, k) == denied_artifact(all.take(n as int + 1), k) by {
                assert(denied_artifact(all.take(n as int + 1), k) == if !item.1.allowed && !(item.1.artifacts is Null) && item.0@ == k {
                    Some(item.1.artifacts) } else { denied_artifact(all.take(n as int), k) });
                assert(json_get(a_before, k) == denied_artifact(all.take(n as int), k));
            }
        }
        proof {
            let t0 = all.take(n as int);
            let t1 = all.take(n as int + 1);
            assert(all_allowed(t1) == (all_allowed(t0) && item.1.allowed)) by {
                if all_allowed(t1) {
                    assert forall|i: int| 0 <= i < t0.len() implies (#[trigger] t0[i]).1.allowed by {
                        assert(t0[i] == t1[i]);
                    }
                    assert(t1[n as int] == item);
                }
                if all_allowed(t0) && item.1.allowed {
                    assert forall|i: int| 0 <= i < t1.len() implies (#[trigger] t1[i]).1.allowed by {
                        if i < n {
                            assert(t0[i] == t1[i]);
                        }
                    }
                }
            }
        }
        n = n + 1;
    }
    assert(all.take(n as int) =~= all);
    if !denied {
        return VerificationResult::allow();
    }
    VerificationResult { allowed: false, reasons, artifacts }
}

/// Items of `parts` separated by `sep`.
pub open spec fn joined(parts: Seq<Seq<char>>, sep: Seq<char>) -> Seq<char>
    decreases parts.len(),
{
    if parts.len() == 0 {
        seq![]
    } else if parts.len() == 1 {
        parts[0]
    } else {
        joined(parts.drop_last(), sep) + sep + parts.last()
    }
}

/// Joins `parts` with `sep`.
pub fn join_strings(parts: &Vec<String>, sep: &str) -> (r: String)
    ensures
        r@ == joined(strs(parts@), sep@),
{
    let mut out = String::new();
    let mut i: usize = 0;
    while i < parts.len()
        invariant
            i <= parts@.len(),
            out@ == joined(strs(parts@).take(i as int), sep@),
        decreases parts@.len() - i,
    {
        let ghost prefix = strs(parts@).take(i as int + 1);
        assert(prefix.drop_last() =~= strs(parts@).take(i as int));
        if i == 0 {
            out = parts[0].clone();
            assert(prefix =~= seq![parts@[0]@]);
        } else {
            out = out.concat(sep);
            out = out.concat(parts[i].as_str());
        }
        i = i + 1;
    }
    assert(strs(parts@).take(parts@.len() as int) =~= strs(parts@));
    out
}

/// The keys of an object, or nothing for other values.
pub fn object_keys(j: &Json) -> (r: Vec<String>)
    ensures
        j is Object ==> strs(r@) == crate::json::entry_keys(j->Object_0@),
        !(j is Object) ==> r@.len() == 0,
{
    let mut out: Vec<String> = Vec::new();
    match j {
        Json::Object(m) => {
            let mut i: usize = 0;
            while i < m.len()
                invariant
                    i <= m@.len(),
                    strs(out@) == crate::json::entry_keys(m@.take(i as int)),
                decreases m@.len() - i,
            {
                out.push(m[i].0.clone());
                assert(crate::json::entry_keys(m@.take(i as int + 1)) =~= crate::json::entry_keys(m@.take(i as int)).push(m@[i as int].0@));
                assert(strs(out@) =~= crate::json::entry_keys(m@.take(i as int + 1)));
                i = i + 1;
            }
            assert(m@.take(m@.len() as int) =~= m@);
        },
        _ => {},
    }
    out
}

fn request_context(action: &ActionRequest, sources: Vec<String>) -> (r: Json)
    ensures
        r is Object,
{
    let mut o = Json::object();
    o.insert(String::from_str("source"), Json::Str(String::from_str("gateway_verifier_chain")));
    o.insert(String::from_str("tenant_id"), Json::Str(uuid_string(action.tenant_id.value)));
    o.insert(String::from_str("agent_id"), Json::Str(uuid_string(action.agent_id.value)));
    o.insert(String::from_str("run_id"), Json::Str(uuid_string(action.run_id.value)));
    o.insert(String::from_str("action_id"), Json::Str(uuid_string(action.action_id.value)));
    o.insert(String::from_str("action"), Json::Str(action.action.name.clone()));
    match &action.adapter {
        Some(a) => o.insert(String::from_str("adapter"), Json::Str(a.clone())),
        None => o.insert(String::from_str("adapter"), Json::Null),
    }
    o.insert(String::from_str("sources"), Json::string_array(&sources));
    o
}

/// Adds the request context (who asked for what, and which checks spoke) to
/// a result's evidence. The verdict and reasons are left as they are.
pub fn attach_request_context(result: &mut VerificationResult, action: &ActionRequest)
    ensures
        final(result).allowed == old(result).allowed,
        strs(final(result).reasons@) == strs(old(result).reasons@),
        final(result).artifacts is Object,
        crate::json::json_has_key(final(result).artifacts, "context"@),
{
    let sources = object_keys(&result.artifacts);
    let context = request_context(action, sources);
    let mut artifacts = Json::Null;
    std::mem::swap(&mut artifacts, &mut result.artifacts);
    if !artifacts.is_object() {
        let other = artifacts;
        artifacts = Json::object();
        if !other.is_null() {
            artifacts.insert(String::from_str("detail"), other);
        }
    }
    artifacts.insert(String::from_str("context"), context);
    result.artifacts = artifacts;
}

/// Adds `artifact` under `label` to an allowed result's evidence.
pub fn attach_allowed_artifact(result: &mut VerificationResult, label: &str, artifact: Json)
    ensures
        final(result).allowed == old(result).allowed,
        strs(final(result).reasons@) == strs(old(result).reasons@),
        !(artifact is Null) ==> crate::json::json_has_key(final(result).artifacts, label@),
        artifact is Null ==> final(result).artifacts == old(result).artifacts,
{
    if artifact.is_null() {
        return;
    }
    let mut artifacts = Json::Null;
    std::mem::swap(&mut artifacts, &mut result.artifacts);
    if !artifacts.is_object() {
        let other = artifacts;
        artifacts = Json::object();
        if !other.is_null() {
            artifacts.insert(String::from_str("detail"), other);
        }
    }
    artifacts.insert(String::from_str(label), artifact);
    result.artifacts = artifacts;
}

/// Error text of a denial: the reasons joined by ", ", or a fixed text when
/// there are none.
pub open spec fn denial_error(reasons: Seq<Seq<char>>) -> Seq<char> {
    if reasons.len() == 0 { "verification denied"@ } else { joined(reasons, ", "@) }
}

fn denial_text(verification: &VerificationResult) -> (r: String)
    ensures
        r@ == denial_error(strs(verification.reasons@)),
{
    if verification.reasons.len() == 0 {
        String::from_str("verification denied")
    } else {
        join_strings(&verification.reasons, ", ")
    }
}

/// Shape shared by every outcome that stops before an adapter runs.
pub open spec fn stopped_before_adapter(o: ActionOutcome, id: ActionId, status: ActionStatus) -> bool {
    &&& o.action_id == id
    &&& o.status == status
    &&& o.post_verification is None
    &&& o.output is None
    &&& o.error is Some
}

/// A denial outcome whose error text lists the reasons.
pub fn denied_outcome(action_id: ActionId, verification: VerificationResult) -> (r: ActionOutcome)
    ensures
        stopped_before_adapter(r, action_id, ActionStatus::Denied),
        r.error matches Some(e) && e@ == denial_error(strs(verification.reasons@)),
        r.verification.allowed == verification.allowed,
        strs(r.verification.reasons@) == strs(verification.reasons@),
{
    let error = denial_text(&verification);
    ActionOutcome {
        action_id,
        status: ActionStatus::Denied,
        verification,
        post_verification: None,
        output: None,
        error: Some(error),
        completed_at: now_utc(),
    }
}

fn needs_approval_outcome(action_id: ActionId, verification: VerificationResult) -> (r: ActionOutcome)
    ensures
        stopped_before_adapter(r, action_id, ActionStatus::NeedsApproval),
        r.error matches Some(e) && e@ == "approval_required"@,
        r.verification.allowed == verification.allowed,
        strs(r.verification.reasons@) == strs(verification.reasons@),
{
    ActionOutcome {
        action_id,
        status: ActionStatus::NeedsApproval,
        verification,
        post_verification: None,
        output: None,
        error: Some(String::from_str("approval_required")),
        completed_at: now_utc(),
    }
}

fn needs_intervention_outcome(action_id: ActionId, verification: VerificationResult) -> (r: ActionOutcome)
    ensures
        stopped_before_adapter(r, action_id, ActionStatus::NeedsIntervention),
        r.error matches Some(e) && e@ == "needs_intervention"@,
        r.verification.allowed == verification.allowed,
        strs(r.verification.reasons@) == strs(verification.reasons@),
{
    ActionOutcome {
        action_id,
        status: ActionStatus::NeedsIntervention,
        verification,
        post_verification: None,
        output: None,
        error: Some(String::from_str("needs_intervention")),
        completed_at: now_utc(),
    }
}

fn identity_denied_outcome(action_id: ActionId, error: IdentityValidationError) -> (r: ActionOutcome)
    ensures
        stopped_before_adapter(r, action_id, ActionStatus::Denied),
        !r.verification.allowed,
        strs(r.verification.reasons@) == seq!["identity_invalid"@],
{
    let mut reasons: Vec<String> = Vec::new();
    reasons.push(String::from_str("identity_invalid"));
    assert(strs(reasons@) =~= seq!["identity_invalid"@]);
    let mut artifacts = Json::object();
    artifacts.insert(String::from_str("error"), Json::Str(error.message()));
    ActionOutcome {
        action_id,
        status: ActionStatus::Denied,
        verification: VerificationResult { allowed: false, reasons, artifacts },
        post_verification: None,
        output: None,
        error: Some(error.message()),
        completed_at: now_utc(),
    }
}

/// An adapter registered for one action name.
pub struct AdapterRegistration<A: ActionAdapter> {
    pub action_name: String,
    pub adapter_id: String,
    pub adapter: A,
}

/// The invariant evaluator in use.
pub enum InvariantChoice {
    Simple,
    Custom(Box<dyn InvariantEvaluator>),
}

/// The approval verifier in use.
pub enum ApprovalChoice {
    NoApproval,
    Policies(PolicyApprovalVerifier),
    Custom(Box<dyn crate::approval::ApprovalVerifier>),
}

/// Adapter id registered for an action name: the latest registration wins.
pub open spec fn registered_adapter<A: ActionAdapter>(regs: Seq<AdapterRegistration<A>>, name: Seq<char>) -> Option<Seq<char>>
    decreases regs.len(),
{
    if regs.len() == 0 {
        None
    } else if regs.last().action_name@ == name {
        Some(regs.last().adapter_id@)
    } else {
        registered_adapter(regs.drop_last(), name)
    }
}

/// What happens to a request once the approval verifier has spoken.
pub enum ApprovalGate {
    /// Continue to the quota check, carrying the grant evidence if any.
    Proceed(Option<VerificationResult>),
    /// Stop with this status and verification result.
    Stop(ActionStatus, VerificationResult),
}

/// Maps an approval verdict to the gateway's next step.
pub fn approval_gate(v: ApprovalVerification) -> (r: ApprovalGate)
    ensures
        match v {
            ApprovalVerification::NotRequired => r matches ApprovalGate::Proceed(None),
            ApprovalVerification::Granted(g) => r matches ApprovalGate::Proceed(Some(x)) && x == g,
            ApprovalVerification::Required(x) => r matches ApprovalGate::Stop(s, y) && s == ActionStatus::NeedsApproval && y == x,
            ApprovalVerification::Denied(x) => r matches ApprovalGate::Stop(s, y) && s == ActionStatus::Denied && y == x,
            ApprovalVerification::NeedsIntervention(x) => r matches ApprovalGate::Stop(s, y) && s == ActionStatus::NeedsIntervention && y == x,
        },
{
    match v {
        ApprovalVerification::NotRequired => ApprovalGate::Proceed(None),
        ApprovalVerification::Granted(g) => ApprovalGate::Proceed(Some(g)),
        ApprovalVerification::Required(x) => ApprovalGate::Stop(ActionStatus::NeedsApproval, x),
        ApprovalVerification::Denied(x) => ApprovalGate::Stop(ActionStatus::Denied, x),
        ApprovalVerification::NeedsIntervention(x) => ApprovalGate::Stop(ActionStatus::NeedsIntervention, x),
    }
}

/// The outcome once the adapter has run: an adapter error fails the action
/// without output; otherwise the postcondition check decides between
/// executed and failed.
pub fn adapter_outcome(
    action_id: ActionId,
    verification: VerificationResult,
    executed: Result<AdapterResult, AdapterError>,
    post: Option<VerificationResult>,
) -> (r: ActionOutcome)
    requires
        executed is Ok <==> post is Some,
    ensures
        r.action_id == action_id,
        r.verification == verification,
        match executed {
            Err(e) => r.status == ActionStatus::Failed && r.output is None && r.post_verification is None
                && (r.error matches Some(t) && t@ == e.message_spec()),
            Ok(res) => {
                let p = post->Some_0;
                &&& r.output == Some(res.output)
                &&& r.post_verification == post
                &&& (p.allowed ==> r.status == ActionStatus::Executed && r.error is None)
                &&& (!p.allowed ==> r.status == ActionStatus::Failed
                    && (r.error matches Some(t) && t@ == joined(strs(p.reasons@), ", "@)))
            },
        },
{
    match executed {
        Err(error) => {
            let text = error.message();
            ActionOutcome {
                action_id,
                status: ActionStatus::Failed,
                verification,
                post_verification: None,
                output: None,
                error: Some(text),
                completed_at: now_utc(),
            }
        },
        Ok(result) => {
            let post = post.unwrap();
            let status = if post.allowed { ActionStatus::Executed } else { ActionStatus::Failed };
            let error = if post.allowed { None } else { Some(join_strings(&post.reasons, ", ")) };
            ActionOutcome {
                action_id,
                status,
                verification,
                post_verification: Some(post),
                output: Some(result.output),
                error,
                completed_at: now_utc(),
            }
        },
    }
}

impl AdapterError {
    pub open spec fn message_spec(&self) -> Seq<char> {
        match self {
            AdapterError::Failed(d) => "adapter failed: "@ + d@,
        }
    }
}

/// Gateway that runs the verifier chain before any adapter executes.
pub struct VerifiedActionGateway<T: TenantAccess, A: ActionAdapter> {
    pub adapters: Vec<AdapterRegistration<A>>,
    pub tenant_access: T,
    pub invariant_evaluator: InvariantChoice,
    pub approval_verifier: ApprovalChoice,
    pub adapter_log: Ghost<Seq<ActionId>>,
    pub quota_log: Ghost<Seq<bool>>,
    pub check_log: Ghost<Seq<(VerificationResult, VerificationResult)>>,
    pub result_log: Ghost<Seq<Result<AdapterResult, AdapterError>>>,
    pub approval_log: Ghost<Seq<ApprovalVerification>>,
}

impl<T: TenantAccess, A: ActionAdapter> VerifiedActionGateway<T, A> {
    /// The actions, by id, whose adapter this gateway has run, in order.
    pub open spec fn adapter_calls(&self) -> Seq<ActionId> {
        self.adapter_log@
    }

    /// What the adapters this gateway ran returned, in order.
    pub open spec fn adapter_results(&self) -> Seq<Result<AdapterResult, AdapterError>> {
        self.result_log@
    }

    /// The approval verdicts this gateway has obtained, in order, one per
    /// request that reached the approval check.
    pub open spec fn approvals(&self) -> Seq<ApprovalVerification> {
        self.approval_log@
    }

    /// The verdicts of the quota charges this gateway has made, in order.
    pub open spec fn quota_charges(&self) -> Seq<bool> {
        self.quota_log@
    }

    /// Whether the latest policy check allowed, with the reasons it gave.
    pub open spec fn last_policy(&self) -> (bool, Seq<Seq<char>>) {
        (self.policy_checks().last().0.allowed, strs(self.policy_checks().last().0.reasons@))
    }

    /// Whether the latest precondition check allowed, with the reasons it gave.
    pub open spec fn last_pre(&self) -> (bool, Seq<Seq<char>>) {
        (self.policy_checks().last().1.allowed, strs(self.policy_checks().last().1.reasons@))
    }

    /// The policy and precondition verdicts the gateway has obtained, in
    /// order, one pair per request that reached those checks.
    pub open spec fn policy_checks(&self) -> Seq<(VerificationResult, VerificationResult)> {
        self.check_log@
    }

    /// The request passes identity, registration and the requested-adapter
    /// check, and reaches the policy and precondition checks.
    pub open spec fn reaches_policy(&self, action: ActionRequest) -> bool {
        &&& identity_error(action) is None
        &&& registered_adapter(self.adapters@, action.action.name@) is Some
        &&& !(action.adapter matches Some(a) && a@ != registered_adapter(self.adapters@, action.action.name@).unwrap())
    }

    /// The adapter the policy is asked about: the requested one, else the
    /// registered one.
    pub open spec fn effective_adapter(&self, action: ActionRequest) -> Seq<char> {
        match action.adapter {
            Some(a) => a@,
            None => registered_adapter(self.adapters@, action.action.name@).unwrap(),
        }
    }


    /// The approval verdict on `action` at `now`, for the configured approval
    /// policies (none required without any).
    pub open spec fn approval_kind_at(&self, action: ActionRequest, now: Timestamp) -> Option<crate::approval::ApprovalKind> {
        match self.approval_verifier {
            ApprovalChoice::NoApproval => Some(crate::approval::ApprovalKind::NotRequired),
            ApprovalChoice::Policies(p) => {
                let ad = Some(self.effective_adapter(action));
                match crate::approval::first_applicable(p.policies@, action, ad) {
                    None => Some(crate::approval::ApprovalKind::NotRequired),
                    Some(i) => Some(crate::approval::verdict_under(p.policies@[i], action, ad, now).0),
                }
            },
            ApprovalChoice::Custom(_) => None,
        }
    }

    /// What a submission at `now` adds to `submission`: once policy and
    /// preconditions allow, the approval verdict decides whether the action
    /// stops (awaiting approval, denied, or needing intervention, with no
    /// quota charged) or goes on to the quota charge.
    pub open spec fn approval_step(self, after: Self, action: ActionRequest, now: Timestamp, r: Result<ActionOutcome, GatewayError>) -> bool {
        self.reaches_policy(action) && after.last_policy().0 && after.last_pre().0 ==> match self.approval_kind_at(action, now) {
            Some(crate::approval::ApprovalKind::Required) => r matches Ok(o) && o.status == ActionStatus::NeedsApproval
                && after.tenant_access == self.tenant_access && after.quota_charges() == self.quota_charges(),
            Some(crate::approval::ApprovalKind::Denied) => r matches Ok(o) && o.status == ActionStatus::Denied
                && after.tenant_access == self.tenant_access && after.quota_charges() == self.quota_charges(),
            Some(crate::approval::ApprovalKind::NeedsIntervention) => r matches Ok(o) && o.status == ActionStatus::NeedsIntervention
                && after.tenant_access == self.tenant_access && after.quota_charges() == self.quota_charges(),
            Some(_) => after.quota_charges().len() == self.quota_charges().len() + 1,
            None => true,
        }
    }

    /// A gateway with no adapters, the simple invariant evaluator and no
    /// approval policies.
    pub fn new(tenant_access: T) -> (r: VerifiedActionGateway<T, A>)
        ensures
            r.adapters@.len() == 0,
            r.tenant_access == tenant_access,
            r.invariant_evaluator is Simple,
            r.approval_verifier is NoApproval,
            r.adapter_calls() == Seq::<ActionId>::empty(),
            r.quota_charges() == Seq::<bool>::empty(),
            r.adapter_results() == Seq::<Result<AdapterResult, AdapterError>>::empty(),
            r.approvals() == Seq::<ApprovalVerification>::empty(),
            r.policy_checks() == Seq::<(VerificationResult, VerificationResult)>::empty(),
    {
        VerifiedActionGateway {
            adapters: Vec::new(),
            tenant_access,
            invariant_evaluator: InvariantChoice::Simple,
            approval_verifier: ApprovalChoice::NoApproval,
            adapter_log: Ghost(Seq::empty()),
            quota_log: Ghost(Seq::empty()),
            check_log: Ghost(Seq::empty()),
            result_log: Ghost(Seq::empty()),
            approval_log: Ghost(Seq::empty()),
        }
    }

    /// Registers `adapter` under `adapter_id` for `action_name`, replacing an
    /// earlier registration for that name.
    pub fn register_adapter(&mut self, action_name: String, adapter_id: String, adapter: A)
        ensures
            registered_adapter(final(self).adapters@, action_name@) == Some(adapter_id@),
            forall|n: Seq<char>| n != action_name@ ==> #[trigger] registered_adapter(final(self).adapters@, n)
                == registered_adapter(old(self).adapters@, n),
            final(self).tenant_access == old(self).tenant_access,
    {
        let ghost before = self.adapters@;
        self.adapters.push(AdapterRegistration { action_name, adapter_id, adapter });
        assert(self.adapters@.drop_last() =~= before);
    }

    /// Replaces the invariant evaluator.
    pub fn set_invariant_evaluator(&mut self, evaluator: Box<dyn InvariantEvaluator>)
        ensures
            final(self).invariant_evaluator == InvariantChoice::Custom(evaluator),
            final(self).adapters == old(self).adapters,
            final(self).tenant_access == old(self).tenant_access,
            final(self).approval_verifier == old(self).approval_verifier,
    {
        self.invariant_evaluator = InvariantChoice::Custom(evaluator);
    }

    /// Uses approval policies.
    pub fn set_approval_policies(&mut self, verifier: PolicyApprovalVerifier)
        ensures
            final(self).approval_verifier == ApprovalChoice::Policies(verifier),
            final(self).adapters == old(self).adapters,
            final(self).tenant_access == old(self).tenant_access,
            final(self).invariant_evaluator == old(self).invariant_evaluator,
    {
        self.approval_verifier = ApprovalChoice::Policies(verifier);
    }

    /// Replaces the approval verifier.
    pub fn set_approval_verifier(&mut self, verifier: Box<dyn crate::approval::ApprovalVerifier>)
        ensures
            final(self).approval_verifier == ApprovalChoice::Custom(verifier),
            final(self).adapters == old(self).adapters,
            final(self).tenant_access == old(self).tenant_access,
            final(self).invariant_evaluator == old(self).invariant_evaluator,
    {
        self.approval_verifier = ApprovalChoice::Custom(verifier);
    }

    fn find_registration(&self, name: &String) -> (r: Option<usize>)
        ensures
            r matches Some(i) ==> i < self.adapters@.len() && registered_adapter(self.adapters@, name@) == Some(self.adapters@[i as int].adapter_id@),
            r is None ==> registered_adapter(self.adapters@, name@) is None,
    {
        let mut i: usize = self.adapters.len();
        assert(self.adapters@.take(i as int) =~= self.adapters@);
        while i > 0
            invariant
                i <= self.adapters@.len(),
                registered_adapter(self.adapters@, name@) == registered_adapter(self.adapters@.take(i as int), name@),
            decreases i,
        {
            let ghost t = self.adapters@.take(i as int);
            assert(t.drop_last() =~= self.adapters@.take(i as int - 1));
            assert(t.last() == self.adapters@[i as int - 1]);
            i = i - 1;
            if self.adapters[i].action_name == *name {
                return Some(i);
            }
        }
        None
    }

    fn pre_check(&self, action: &Action, satisfied: &[String]) -> (r: VerificationResult)
        ensures
            self.invariant_evaluator is Simple ==> r.allowed == (absent_from(strs(action.preconditions@), strs(satisfied@)).len() == 0),
            self.invariant_evaluator is Simple ==> (r.allowed, strs(r.reasons@))
                == simple_verdict(strs(action.preconditions@), strs(satisfied@), "precondition_missing"@),
    {
        match &self.invariant_evaluator {
            InvariantChoice::Simple => SimpleInvariantEvaluator.pre(action, satisfied),
            InvariantChoice::Custom(e) => e.verify_pre(action, satisfied),
        }
    }

    fn post_check(&self, action: &Action, satisfied: &[String]) -> (r: VerificationResult)
        ensures
            self.invariant_evaluator is Simple ==> r.allowed == (absent_from(strs(action.postconditions@), strs(satisfied@)).len() == 0),
            self.invariant_evaluator is Simple ==> (r.allowed, strs(r.reasons@))
                == simple_verdict(strs(action.postconditions@), strs(satisfied@), "postcondition_missing"@),
    {
        match &self.invariant_evaluator {
            InvariantChoice::Simple => SimpleInvariantEvaluator.post(action, satisfied),
            InvariantChoice::Custom(e) => e.verify_post(action, satisfied),
        }
    }

    fn approval(&self, action: &ActionRequest, adapter: Option<&String>, now: Timestamp) -> (r: ApprovalVerification)
        ensures
            self.approval_verifier is NoApproval ==> r is NotRequired,
            self.approval_verifier matches ApprovalChoice::Policies(p)
                ==> crate::approval::approval_decided(p.policies@, *action, crate::approval::opt_ref_view(adapter), now, r),
    {
        match &self.approval_verifier {
            ApprovalChoice::NoApproval => ApprovalVerification::NotRequired,
            ApprovalChoice::Policies(p) => p.verify(action, adapter, now),
            ApprovalChoice::Custom(v) => v.verify_approval(action, adapter, now),
        }
    }

    /// What a submission of `action` to this gateway does: `after` is the
    /// gateway afterwards and `r` the answer.
    ///
    /// Order: identity, adapter registration, requested adapter, tenant
    /// policy together with preconditions, approval, quota, adapter,
    /// postconditions. Quota is charged only after every earlier check
    /// allowed, and an adapter runs only after quota was charged.
    pub open spec fn submission(self, after: Self, action: ActionRequest, r: Result<ActionOutcome, GatewayError>) -> bool {
        // Exactly the requests that reach the policy and precondition checks
        // add their verdicts; with the simple evaluator, the precondition
        // verdict is that every precondition is satisfied.
        &&& if self.reaches_policy(action) {
                &&& after.policy_checks().len() == self.policy_checks().len() + 1
                &&& after.policy_checks().drop_last() == self.policy_checks()
                &&& self.invariant_evaluator is Simple ==> after.last_pre()
                    == simple_verdict(strs(action.action.preconditions@), strs(action.satisfied_preconditions@), "precondition_missing"@)
            } else {
                after.policy_checks() == self.policy_checks()
            }
        // An unregistered action, once its identity is valid, is always an error.
        &&& (identity_error(action) is None && registered_adapter(self.adapters@, action.action.name@) is None)
            ==> (r matches Err(GatewayError::AdapterFailed(m)) && m@ == "adapter not registered"@)
        // A policy or precondition refusal is a denial carrying those reasons:
        // no quota is charged and no adapter runs.
        &&& self.reaches_policy(action) && !(after.last_policy().0 && after.last_pre().0) ==> {
            &&& r matches Ok(o)
            &&& o.status == ActionStatus::Denied
            &&& !o.verification.allowed
            &&& o.output is None
            &&& strs(o.verification.reasons@) == (if after.last_policy().0 { seq![] } else { after.last_policy().1 })
                + (if after.last_pre().0 { seq![] } else { after.last_pre().1 })
            &&& (o.error matches Some(t) && t@ == denial_error(strs(o.verification.reasons@)))
            &&& after.tenant_access == self.tenant_access
            &&& after.quota_charges() == self.quota_charges()
        }
        // Exactly the requests whose policy and preconditions allowed reach the
        // approval check; a verdict that stops the action decides its status
        // and no quota is charged; the adapter runs only after a verdict that
        // lets the action proceed.
        &&& if self.reaches_policy(action) && after.last_policy().0 && after.last_pre().0 {
                &&& after.approvals().len() == self.approvals().len() + 1
                &&& after.approvals().drop_last() == self.approvals()
                &&& match after.approvals().last() {
                    ApprovalVerification::Required(_) => r matches Ok(o) && o.status == ActionStatus::NeedsApproval
                        && !o.verification.allowed && after.quota_charges() == self.quota_charges(),
                    ApprovalVerification::Denied(_) => r matches Ok(o) && o.status == ActionStatus::Denied
                        && !o.verification.allowed && after.quota_charges() == self.quota_charges(),
                    ApprovalVerification::NeedsIntervention(_) => r matches Ok(o) && o.status == ActionStatus::NeedsIntervention
                        && !o.verification.allowed && after.quota_charges() == self.quota_charges(),
                    _ => after.quota_charges().len() == self.quota_charges().len() + 1,
                }
            } else {
                after.approvals() == self.approvals()
            }
        // What the adapter returned decides the outcome: its output, and with
        // the simple evaluator the postcondition verdict on what it satisfied.
        &&& after.adapter_results() == if r matches Ok(o) && o.verification.allowed {
                self.adapter_results().push(after.adapter_results().last())
            } else {
                self.adapter_results()
            }
        &&& r matches Ok(o) ==> o.verification.allowed ==> {
            let res = after.adapter_results().last();
            &&& (after.approvals().last() is NotRequired || after.approvals().last() is Granted)
            &&& match res {
                Err(e) => o.status == ActionStatus::Failed && o.output is None && o.post_verification is None
                    && (o.error matches Some(t) && t@ == e.message_spec()),
                Ok(x) => {
                    &&& o.output == Some(x.output)
                    &&& o.post_verification matches Some(p)
                    &&& (o.status == ActionStatus::Executed <==> p.allowed)
                    &&& (!p.allowed ==> (o.error matches Some(t) && t@ == joined(strs(p.reasons@), ", "@)))
                    &&& (self.invariant_evaluator is Simple ==> (p.allowed, strs(p.reasons@))
                        == simple_verdict(strs(action.action.postconditions@), strs(x.satisfied_postconditions@), "postcondition_missing"@))
                },
            }
        }
        // The adapter runs at most once, exactly when the outcome carries an
        // allowed verification, and only after policy, preconditions and a
        // quota charge that allowed.
        &&& after.adapter_calls() == if r matches Ok(o) && o.verification.allowed {
                self.adapter_calls().push(action.action_id)
            } else {
                self.adapter_calls()
            }
        &&& (r matches Ok(o) && o.verification.allowed) ==> self.reaches_policy(action)
            && after.last_policy().0 && after.last_pre().0
            && after.quota_charges() == self.quota_charges().push(true)
        // Quota is charged at most once, only after policy and preconditions
        // allowed; a refused charge is a denial.
        &&& after.quota_charges() == self.quota_charges()
            || (self.reaches_policy(action) && after.last_policy().0 && after.last_pre().0
                && after.quota_charges().len() == self.quota_charges().len() + 1
                && after.quota_charges().drop_last() == self.quota_charges())
        &&& (after.quota_charges().len() == self.quota_charges().len() + 1 && !after.quota_charges().last())
            ==> (r matches Ok(o) && o.status == ActionStatus::Denied && !o.verification.allowed)
        &&& match r {
            Err(e) => identity_error(action) is None
                && registered_adapter(self.adapters@, action.action.name@) is None
                && (e matches GatewayError::AdapterFailed(m) && m@ == "adapter not registered"@),
            Ok(o) => {
                &&& o.action_id == action.action_id
                // Identity failures are denied first.
                &&& (identity_error(action) is Some ==> stopped_before_adapter(o, action.action_id, ActionStatus::Denied)
                    && strs(o.verification.reasons@) == seq!["identity_invalid"@])
                // A request naming another adapter than the registered one is denied.
                &&& (identity_error(action) is None ==> (registered_adapter(self.adapters@, action.action.name@) matches Some(id)
                    ==> (action.adapter matches Some(a) ==> (a@ != id
                    ==> stopped_before_adapter(o, action.action_id, ActionStatus::Denied)
                        && strs(o.verification.reasons@) == seq!["adapter_mismatch"@]
                        && (o.error matches Some(t) && t@ == "adapter_mismatch"@)))))
                // The adapter ran exactly when the outcome carries an allowed verification.
                &&& (o.status == ActionStatus::Executed || o.status == ActionStatus::Failed) <==> o.verification.allowed
                &&& (o.status == ActionStatus::Executed ==> o.output is Some
                    && (o.post_verification matches Some(p) && p.allowed))
                &&& (o.status == ActionStatus::Failed ==> o.error is Some)
                &&& (!o.verification.allowed ==> o.output is None && o.post_verification is None && o.error is Some)
                // An adapter failure leaves neither output nor postcondition check.
                &&& (o.output is Some <==> o.post_verification is Some)
                &&& (o.status == ActionStatus::Denied || o.status == ActionStatus::NeedsApproval
                    || o.status == ActionStatus::NeedsIntervention || o.status == ActionStatus::Executed
                    || o.status == ActionStatus::Failed)
            },
        }
        // The registrations and the verifiers are never changed by a submission.
        &&& after.adapters == self.adapters
        &&& after.invariant_evaluator == self.invariant_evaluator
        &&& after.approval_verifier == self.approval_verifier
        // Quota is only charged once every earlier check allowed.
        &&& (r is Err || (r matches Ok(o) && (o.status == ActionStatus::NeedsApproval
            || o.status == ActionStatus::NeedsIntervention)))
            ==> after.tenant_access == self.tenant_access
    }

    /// Runs the verifier chain and, when every check allows, the adapter;
    /// approval is judged at the current time.
    pub fn submit_request(&mut self, action: ActionRequest) -> (r: Result<ActionOutcome, GatewayError>)
        ensures
            old(self).submission(*final(self), action, r),
            exists|now: Timestamp| #[trigger] old(self).approval_step(*final(self), action, now, r),
    {
        let now = now_utc();
        self.submit_request_at(action, now)
    }

    /// Runs the verifier chain and, when every check allows, the adapter,
    /// judging approval at `now`.
    pub fn submit_request_at(&mut self, action: ActionRequest, now: Timestamp) -> (r: Result<ActionOutcome, GatewayError>)
        ensures
            old(self).submission(*final(self), action, r),
            old(self).approval_step(*final(self), action, now, r),
    {
        if let Err(error) = action.validate_identity() {
            return Ok(identity_denied_outcome(action.action_id, error));
        }
        let index = match self.find_registration(&action.action.name) {
            Some(i) => i,
            None => {
                let r: Result<ActionOutcome, GatewayError> = Err(GatewayError::AdapterFailed(String::from_str("adapter not registered")));
                proof {
                    assert(!old(self).reaches_policy(action));
                    assert(self.adapter_log == old(self).adapter_log);
                    assert(self.quota_log == old(self).quota_log);
                    assert(self.tenant_access == old(self).tenant_access);
                }
                return r;
            },
        };
        let registered_id = self.adapters[index].adapter_id.clone();
        if let Some(requested) = &action.adapter {
            if *requested != registered_id {
                let mut reasons: Vec<String> = Vec::new();
                reasons.push(String::from_str("adapter_mismatch"));
                assert(strs(reasons@) =~= seq!["adapter_mismatch"@]);
                let mut sources: Vec<String> = Vec::new();
                sources.push(String::from_str("adapter"));
                let mut artifacts = Json::object();
                artifacts.insert(String::from_str("context"), request_context(&action, sources));
                artifacts.insert(String::from_str("requested"), Json::Str(requested.clone()));
                artifacts.insert(String::from_str("registered"), Json::Str(registered_id.clone()));
                return Ok(ActionOutcome {
                    action_id: action.action_id,
                    status: ActionStatus::Denied,
                    verification: VerificationResult { allowed: false, reasons, artifacts },
                    post_verification: None,
                    output: None,
                    error: Some(String::from_str("adapter_mismatch")),
                    completed_at: now_utc(),
                });
            }
        }
        let adapter_id = match &action.adapter {
            Some(a) => a.clone(),
            None => registered_id,
        };

        let policy_result = self.tenant_access.verify_policy(&action.tenant_id, &action.agent_id, &action.action, Some(&adapter_id));
        let invariant_pre = self.pre_check(&action.action, &action.satisfied_preconditions);
        let ghost pr = policy_result;
        let ghost ir = invariant_pre;
        proof {
            assert(adapter_id@ == old(self).effective_adapter(action));
            assert(crate::tenancy::opt_view(Some(&adapter_id)) == Some(adapter_id@));

            assert(old(self).reaches_policy(action));
        }
        proof {
            self.check_log@ = self.check_log@.push((pr, ir));
            assert(self.check_log@.drop_last() =~= old(self).check_log@);
        }
        let mut checks: Vec<(String, VerificationResult)> = Vec::new();
        checks.push((String::from_str("policy"), policy_result));
        checks.push((String::from_str("invariant"), invariant_pre));
        let ghost cs = checks@;
        proof {
            assert(cs.len() == 2 && cs[0].1 == pr && cs[1].1 == ir);
            assert(cs.drop_last().drop_last().len() == 0);
            assert(cs.drop_last().last() == cs[0]);
            assert(denied_reasons(cs) =~= (if pr.allowed { seq![] } else { strs(pr.reasons@) })
                + (if ir.allowed { seq![] } else { strs(ir.reasons@) })) by {
                let d1 = cs.drop_last();
                let d0 = d1.drop_last();
                assert(denied_reasons(d0) == Seq::<Seq<char>>::empty());
                assert(d1.last() == cs[0]);
                assert(denied_reasons(d1) =~= (if pr.allowed { seq![] } else { strs(pr.reasons@) }));
                assert(cs.last() == cs[1]);
            }
            if all_allowed(cs) {
                assert(cs[0].1.allowed && cs[1].1.allowed);
            }
            if pr.allowed && ir.allowed {
                assert forall|i: int| 0 <= i < cs.len() implies (#[trigger] cs[i]).1.allowed by {}
            }
        }
        let mut verification = combine_verifications(checks);
        if !verification.allowed {
            attach_request_context(&mut verification, &action);
            return Ok(denied_outcome(action.action_id, verification));
        }

        let approval = self.approval(&action, Some(&adapter_id), now);
        proof {
            self.approval_log@ = self.approval_log@.push(approval);
            assert(self.approval_log@.drop_last() =~= old(self).approval_log@);
        }
        proof {
            assert(crate::approval::opt_ref_view(Some(&adapter_id)) == Some(old(self).effective_adapter(action)));
        }
        let grant = match approval_gate(approval) {
            ApprovalGate::Proceed(grant) => grant,
            ApprovalGate::Stop(status, mut result) => {
                attach_request_context(&mut result, &action);
                // Every stopping verdict carries a denying result.
                if result.allowed {
                    result.allowed = false;
                }
                return match status {
                    ActionStatus::NeedsApproval => Ok(needs_approval_outcome(action.action_id, result)),
                    ActionStatus::NeedsIntervention => Ok(needs_intervention_outcome(action.action_id, result)),
                    _ => Ok(denied_outcome(action.action_id, result)),
                };
            },
        };

        let quota_result = self.tenant_access.verify_quota(&action.tenant_id, &action.agent_id, action.quota_usage);
        proof {
            self.quota_log@ = self.quota_log@.push(quota_result.allowed);
            assert(self.quota_log@.drop_last() =~= old(self).quota_log@);
            assert(self.quota_log@.last() == quota_result.allowed);
        }
        let mut quota_checks: Vec<(String, VerificationResult)> = Vec::new();
        let ghost qr = quota_result;
        quota_checks.push((String::from_str("quota"), quota_result));
        proof {
            assert(quota_checks@.len() == 1 && quota_checks@[0].1 == qr);
            if qr.allowed {
                assert forall|i: int| 0 <= i < quota_checks@.len() implies (#[trigger] quota_checks@[i]).1.allowed by {}
            }
        }
        let mut verification = combine_verifications(quota_checks);
        if !verification.allowed {
            attach_request_context(&mut verification, &action);
            return Ok(denied_outcome(action.action_id, verification));
        }
        if let Some(grant) = grant {
            attach_allowed_artifact(&mut verification, "approval", grant.artifacts);
        }

        let executed = self.adapters[index].adapter.execute(&action);
        proof {
            self.adapter_log@ = self.adapter_log@.push(action.action_id);
            self.result_log@ = self.result_log@.push(executed);
            assert(self.result_log@.drop_last() =~= old(self).result_log@);
        }
        let post = match &executed {
            Ok(result) => Some(self.post_check(&action.action, &result.satisfied_postconditions)),
            Err(_) => None,
        };
        Ok(adapter_outcome(action.action_id, verification, executed, post))
    }
}

impl<T: TenantAccess, A: ActionAdapter> ActionGateway for VerifiedActionGateway<T, A> {
    fn submit(&mut self, action: ActionRequest) -> (r: Result<ActionOutcome, GatewayError>)
        ensures
            old(self).submission(*final(self), action, r),
    {
        self.submit_request(action)
    }
}

/// Gateway used before adapters exist: it refuses every action.
pub struct UnimplementedGateway;

impl UnimplementedGateway {
    pub fn refuse(&self, action: ActionRequest) -> (r: Result<ActionOutcome, GatewayError>)
        ensures
            r matches Err(GatewayError::Unimplemented),
    {
        Err(GatewayError::Unimplemented)
    }
}

impl ActionGateway for UnimplementedGateway {
    fn submit(&mut self, action: ActionRequest) -> (r: Result<ActionOutcome, GatewayError>)
        ensures
            r matches Err(GatewayError::Unimplemented),
    {
        self.refuse(action)
    }
}

} // verus!
