//! Scoped approval: actions that match an approval policy run only with
//! valid, unexpired, unrevoked evidence granted for exactly their scope.

use vstd::prelude::*;
use crate::action::SideEffectClass;
use crate::clock::Timestamp;
use crate::gateway::ActionRequest;
use crate::ids::{ActionId, AgentId, RunId, TenantId};
use crate::json::{Json, json_get, json_str};
use crate::textual::uuid_string;
use crate::verification::{VerificationResult, strs};

verus! {

/// Decision recorded in approval evidence.
#[derive(Clone, Copy, Debug, PartialEq, Eq, Structural)]
pub enum ApprovalDecision {
    Granted,
    Denied,
}

/// Approval evidence presented with an action.
#[derive(Clone, Debug)]
pub struct ApprovalEvidence {
    pub approval_id: u128,
    pub tenant_id: TenantId,
    pub agent_id: AgentId,
    pub run_id: RunId,
    pub decision: ApprovalDecision,
    pub expires_at: Timestamp,
    pub action_id: Option<ActionId>,
    pub action_name: Option<String>,
    pub adapter: Option<String>,
    pub revoked: bool,
}

/// Two optional texts are the same text, or both absent.
pub open spec fn same_opt_text(a: Option<String>, b: Option<String>) -> bool {
    match (a, b) {
        (Some(x), Some(y)) => x@ == y@,
        (None, None) => true,
        _ => false,
    }
}

/// Two pieces of evidence say the same thing.
pub open spec fn evidence_same(a: ApprovalEvidence, b: ApprovalEvidence) -> bool {
    &&& a.approval_id == b.approval_id
    &&& a.tenant_id == b.tenant_id
    &&& a.agent_id == b.agent_id
    &&& a.run_id == b.run_id
    &&& a.decision == b.decision
    &&& a.expires_at == b.expires_at
    &&& a.action_id == b.action_id
    &&& same_opt_text(a.action_name, b.action_name)
    &&& same_opt_text(a.adapter, b.adapter)
    &&& a.revoked == b.revoked
}

fn copy_opt_text(o: &Option<String>) -> (r: Option<String>)
    ensures
        same_opt_text(r, *o),
{
    match o {
        Some(t) => Some(t.clone()),
        None => None,
    }
}

impl ApprovalEvidence {
    /// Copies this evidence.
    pub fn duplicate(&self) -> (r: ApprovalEvidence)
        ensures
            evidence_same(r, *self),
    {
        ApprovalEvidence {
            approval_id: self.approval_id,
            tenant_id: self.tenant_id,
            agent_id: self.agent_id,
            run_id: self.run_id,
            decision: self.decision,
            expires_at: self.expires_at,
            action_id: self.action_id,
            action_name: copy_opt_text(&self.action_name),
            adapter: copy_opt_text(&self.adapter),
            revoked: self.revoked,
        }
    }
}

/// A local approval policy: actions in its scope need approval.
#[derive(Clone, Debug)]
pub struct ApprovalPolicy {
    pub policy_id: String,
    pub tenant_id: TenantId,
    pub agent_id: Option<AgentId>,
    pub action_name: Option<String>,
    pub adapter: Option<String>,
    pub side_effect_class: Option<SideEffectClass>,
    pub reason: String,
    pub expires_at: Option<Timestamp>,
}

pub open spec fn opt_ref_view(o: Option<&String>) -> Option<Seq<char>> {
    match o {
        Some(s) => Some(s@),
        None => None,
    }
}

/// A policy applies to an action when the tenant matches and every scope
/// field the policy sets matches the action.
pub open spec fn policy_applies(p: ApprovalPolicy, a: ActionRequest, adapter: Option<Seq<char>>) -> bool {
    &&& p.tenant_id == a.tenant_id
    &&& (p.agent_id matches Some(x) ==> x == a.agent_id)
    &&& (p.action_name matches Some(n) ==> n@ == a.action.name@)
    &&& (p.adapter matches Some(x) ==> adapter == Some(x@))
    &&& (p.side_effect_class matches Some(c) ==> c == a.action.side_effect_class)
}

pub open spec fn policy_expired(p: ApprovalPolicy, now: Timestamp) -> bool {
    p.expires_at matches Some(t) && t.unix_nanos <= now.unix_nanos
}

/// Index of the first applicable policy.
pub open spec fn first_applicable(ps: Seq<ApprovalPolicy>, a: ActionRequest, adapter: Option<Seq<char>>) -> Option<int>
    decreases ps.len(),
{
    if ps.len() == 0 {
        None
    } else if policy_applies(ps[0], a, adapter) {
        Some(0)
    } else {
        match first_applicable(ps.subrange(1, ps.len() as int), a, adapter) {
            Some(i) => Some(i + 1),
            None => None,
        }
    }
}

proof fn lemma_first_applicable_step(ps: Seq<ApprovalPolicy>, a: ActionRequest, ad: Option<Seq<char>>)
    requires
        ps.len() > 0,
    ensures
        first_applicable(ps, a, ad) == if policy_applies(ps[0], a, ad) {
            Some(0int)
        } else {
            match first_applicable(ps.subrange(1, ps.len() as int), a, ad) {
                Some(i) => Some(i + 1),
                None => None,
            }
        },
{
}

/// Kind of approval verdict.
#[derive(Clone, Copy, Debug, PartialEq, Eq, Structural)]
pub enum ApprovalKind {
    NotRequired,
    Granted,
    Required,
    Denied,
    NeedsIntervention,
}

pub open spec fn evidence_incomplete(e: ApprovalEvidence, adapter: Option<Seq<char>>) -> bool {
    (e.action_id is None && e.action_name is None) || (adapter is Some && e.adapter is None)
}

pub open spec fn evidence_mismatch(e: ApprovalEvidence, a: ActionRequest, adapter: Option<Seq<char>>) -> bool {
    ||| e.tenant_id != a.tenant_id
    ||| e.agent_id != a.agent_id
    ||| e.run_id != a.run_id
    ||| (e.action_id matches Some(x) && x != a.action_id)
    ||| (e.action_name matches Some(n) && n@ != a.action.name@)
    ||| (e.adapter matches Some(x) && adapter != Some(x@))
}

/// The verdict for an action under an applicable policy `p`.
pub open spec fn verdict_under(p: ApprovalPolicy, a: ActionRequest, adapter: Option<Seq<char>>, now: Timestamp) -> (ApprovalKind, Seq<char>) {
    if policy_expired(p, now) {
        (ApprovalKind::NeedsIntervention, "approval_policy_expired"@)
    } else {
        match a.approval_evidence {
            None => (ApprovalKind::Required, "approval_required"@),
            Some(e) => if evidence_incomplete(e, adapter) {
                (ApprovalKind::Denied, "approval_scope_incomplete"@)
            } else if evidence_mismatch(e, a, adapter) {
                (ApprovalKind::Denied, "approval_scope_mismatch"@)
            } else if e.revoked {
                (ApprovalKind::Denied, "approval_revoked"@)
            } else if e.expires_at.unix_nanos < now.unix_nanos {
                (ApprovalKind::Denied, "approval_expired"@)
            } else if e.decision == ApprovalDecision::Granted {
                (ApprovalKind::Granted, seq![])
            } else {
                (ApprovalKind::Denied, "approval_denied"@)
            },
        }
    }
}

/// Result of approval verification.
#[derive(Debug)]
pub enum ApprovalVerification {
    NotRequired,
    Granted(VerificationResult),
    Required(VerificationResult),
    Denied(VerificationResult),
    NeedsIntervention(VerificationResult),
}

pub open spec fn verification_kind(v: ApprovalVerification) -> ApprovalKind {
    match v {
        ApprovalVerification::NotRequired => ApprovalKind::NotRequired,
        ApprovalVerification::Granted(_) => ApprovalKind::Granted,
        ApprovalVerification::Required(_) => ApprovalKind::Required,
        ApprovalVerification::Denied(_) => ApprovalKind::Denied,
        ApprovalVerification::NeedsIntervention(_) => ApprovalKind::NeedsIntervention,
    }
}

/// Verifies scoped approval evidence before adapter execution.
pub trait ApprovalVerifier {
    fn verify_approval(&self, action: &ActionRequest, adapter: Option<&String>, now: Timestamp) -> ApprovalVerification;
}

/// `r` is the approval decision of `policies` for `action` through
/// `adapter` at `now`: the first applicable policy governs it; with none, no
/// approval is required.
pub open spec fn approval_decided(policies: Seq<ApprovalPolicy>, action: ActionRequest, adapter: Option<Seq<char>>, now: Timestamp, r: ApprovalVerification) -> bool {
    match first_applicable(policies, action, adapter) {
        None => r is NotRequired,
        Some(i) => {
            let v = verdict_under(policies[i], action, adapter, now);
            let st = approval_status_for(v.0, v.1);
            let pid = policies[i].policy_id@;
            &&& verification_kind(r) == v.0
            &&& match r {
                ApprovalVerification::Granted(x) => x.allowed && x.reasons@.len() == 0 && approval_artifacts(x.artifacts, st, pid),
                ApprovalVerification::Required(x) => !x.allowed && strs(x.reasons@) == seq![v.1] && approval_artifacts(x.artifacts, st, pid),
                ApprovalVerification::Denied(x) => !x.allowed && strs(x.reasons@) == seq![v.1] && approval_artifacts(x.artifacts, st, pid),
                ApprovalVerification::NeedsIntervention(x) => !x.allowed && strs(x.reasons@) == seq![v.1]
                    && approval_artifacts(x.artifacts, st, pid),
                ApprovalVerification::NotRequired => true,
            }
        },
    }
}

/// The approval status an evidence artifact records for a verdict.
pub open spec fn approval_status_for(kind: ApprovalKind, reason: Seq<char>) -> Seq<char> {
    match kind {
        ApprovalKind::Granted => "granted"@,
        ApprovalKind::Required => "required"@,
        ApprovalKind::NeedsIntervention => "intervention_required"@,
        ApprovalKind::Denied => if reason == "approval_revoked"@ {
            "revoked"@
        } else if reason == "approval_expired"@ {
            "expired"@
        } else {
            "denied"@
        },
        ApprovalKind::NotRequired => seq![],
    }
}

/// The evidence artifacts of an approval result: the verifier's name, the
/// approval status, the approval context and the governing policy's id.
pub open spec fn approval_artifacts(j: Json, status: Seq<char>, policy_id: Seq<char>) -> bool {
    &&& j is Object
    &&& json_get(j, "verifier"@) matches Some(v) && json_str(v) == Some("approval_verifier"@)
    &&& json_get(j, "approval_status"@) matches Some(v) && json_str(v) == Some(status)
    &&& json_get(j, "approval"@) matches Some(c) && c is Object
    &&& json_get(j, "policy_id"@) matches Some(v) && json_str(v) == Some(policy_id)
}

/// Verifier under which no action needs approval.
pub struct NoApprovalVerifier;

impl ApprovalVerifier for NoApprovalVerifier {
    fn verify_approval(&self, action: &ActionRequest, adapter: Option<&String>, now: Timestamp) -> (r: ApprovalVerification)
        ensures
            r is NotRequired,
    {
        ApprovalVerification::NotRequired
    }
}

/// Verifier backed by local approval policies.
#[derive(Clone, Debug)]
pub struct PolicyApprovalVerifier {
    pub policies: Vec<ApprovalPolicy>,
}

fn approval_context(policy: &ApprovalPolicy, action: &ActionRequest, adapter: Option<&String>) -> (r: Json)
    ensures
        r is Object,
{
    let mut o = Json::object();
    o.insert(String::from_str("policy_id"), Json::Str(policy.policy_id.clone()));
    o.insert(String::from_str("tenant_id"), Json::Str(uuid_string(action.tenant_id.value)));
    o.insert(String::from_str("agent_id"), Json::Str(uuid_string(action.agent_id.value)));
    o.insert(String::from_str("run_id"), Json::Str(uuid_string(action.run_id.value)));
    o.insert(String::from_str("action_id"), Json::Str(uuid_string(action.action_id.value)));
    o.insert(String::from_str("action_name"), Json::Str(action.action.name.clone()));
    match adapter {
        Some(a) => o.insert(String::from_str("adapter"), Json::Str(a.clone())),
        None => o.insert(String::from_str("adapter"), Json::Null),
    }
    match &action.approval_evidence {
        Some(e) => o.insert(String::from_str("approval_id"), Json::Str(uuid_string(e.approval_id))),
        None => o.insert(String::from_str("approval_id"), Json::Null),
    }
    o
}

/// Builds an approval verification result with its evidence artifacts.
fn approval_result(allowed: bool, reason: &str, status: &str, approval: Json, policy_id: &String) -> (r: VerificationResult)
    ensures
        r.allowed == allowed,
        strs(r.reasons@) == if allowed { seq![] } else { seq![reason@] },
        allowed ==> r.reasons@.len() == 0,
        r.artifacts is Object,
        approval is Object ==> approval_artifacts(r.artifacts, status@, policy_id@),
{
    proof {
        reveal_strlit("verifier");
        reveal_strlit("approval_status");
        reveal_strlit("approval");
        reveal_strlit("policy_id");
        assert("verifier"@.len() != "approval_status"@.len());
        assert("verifier"@[0] != "approval"@[0]);
        assert("verifier"@.len() != "policy_id"@.len());
        assert("approval_status"@.len() != "approval"@.len());
        assert("approval_status"@.len() != "policy_id"@.len());
        assert("approval"@.len() != "policy_id"@.len());
    }
    let mut reasons: Vec<String> = Vec::new();
    if !allowed {
        reasons.push(String::from_str(reason));
    }
    assert(strs(reasons@) =~= if allowed { seq![] } else { seq![reason@] });
    let mut artifacts = Json::object();
    artifacts.insert(String::from_str("verifier"), Json::Str(String::from_str("approval_verifier")));
    artifacts.insert(String::from_str("approval_status"), Json::Str(String::from_str(status)));
    artifacts.insert(String::from_str("approval"), approval);
    artifacts.insert(String::from_str("policy_id"), Json::Str(policy_id.clone()));
    VerificationResult { allowed, reasons, artifacts }
}

impl ApprovalPolicy {
    pub fn applies(&self, action: &ActionRequest, adapter: Option<&String>) -> (r: bool)
        ensures
            r == policy_applies(*self, *action, opt_ref_view(adapter)),
    {
        if self.tenant_id != action.tenant_id {
            return false;
        }
        if let Some(agent) = &self.agent_id {
            if *agent != action.agent_id {
                return false;
            }
        }
        if let Some(name) = &self.action_name {
            if *name != action.action.name {
                return false;
            }
        }
        if let Some(expected) = &self.adapter {
            match adapter {
                Some(a) => if *expected != *a { return false; },
                None => { return false; },
            }
        }
        if let Some(class) = self.side_effect_class {
            if class != action.action.side_effect_class {
                return false;
            }
        }
        true
    }

    pub fn is_expired(&self, now: Timestamp) -> (r: bool)
        ensures
            r == policy_expired(*self, now),
    {
        match self.expires_at {
            Some(t) => t.unix_nanos <= now.unix_nanos,
            None => false,
        }
    }
}

impl PolicyApprovalVerifier {
    pub fn new(policies: Vec<ApprovalPolicy>) -> (r: PolicyApprovalVerifier)
        ensures
            r.policies == policies,
    {
        PolicyApprovalVerifier { policies }
    }

    /// Decides approval for an action: the first applicable policy governs it;
    /// with none, no approval is required.
    pub fn verify(&self, action: &ActionRequest, adapter: Option<&String>, now: Timestamp) -> (r: ApprovalVerification)
        ensures
            approval_decided(self.policies@, *action, opt_ref_view(adapter), now, r),
    {
        let ghost ad = opt_ref_view(adapter);
        let mut i: usize = 0;
        assert(self.policies@.subrange(0, self.policies@.len() as int) =~= self.policies@);
        while i < self.policies.len()
            invariant
                i <= self.policies@.len(),
                ad == opt_ref_view(adapter),
                first_applicable(self.policies@, *action, ad) == match first_applicable(self.policies@.subrange(i as int, self.policies@.len() as int), *action, ad) {
                    Some(k) => Some(k + i),
                    None => None,
                },
            decreases self.policies@.len() - i,
        {
            let ghost rest = self.policies@.subrange(i as int, self.policies@.len() as int);
            assert(rest.subrange(1, rest.len() as int) =~= self.policies@.subrange(i as int + 1, self.policies@.len() as int));
            assert(rest[0] == self.policies@[i as int]);
            proof { lemma_first_applicable_step(rest, *action, ad); }
            if self.policies[i].applies(action, adapter) {
                assert(first_applicable(rest, *action, ad) == Some(0int));
                return self.decide(&self.policies[i], action, adapter, now);
            }
            assert(first_applicable(rest, *action, ad) == match first_applicable(rest.subrange(1, rest.len() as int), *action, ad) {
                Some(k) => Some(k + 1),
                None => None,
            });
            i = i + 1;
        }
        ApprovalVerification::NotRequired
    }

    fn decide(&self, policy: &ApprovalPolicy, action: &ActionRequest, adapter: Option<&String>, now: Timestamp) -> (r: ApprovalVerification)
        ensures
            ({
                let v = verdict_under(*policy, *action, opt_ref_view(adapter), now);
                let st = approval_status_for(v.0, v.1);
                let pid = policy.policy_id@;
                &&& verification_kind(r) == v.0
                &&& match r {
                    ApprovalVerification::Granted(x) => x.allowed && x.reasons@.len() == 0 && approval_artifacts(x.artifacts, st, pid),
                    ApprovalVerification::Required(x) => !x.allowed && strs(x.reasons@) == seq![v.1] && approval_artifacts(x.artifacts, st, pid),
                    ApprovalVerification::Denied(x) => !x.allowed && strs(x.reasons@) == seq![v.1] && approval_artifacts(x.artifacts, st, pid),
                    ApprovalVerification::NeedsIntervention(x) => !x.allowed && strs(x.reasons@) == seq![v.1]
                        && approval_artifacts(x.artifacts, st, pid),
                    ApprovalVerification::NotRequired => true,
                }
            }),
    {
        let context = approval_context(policy, action, adapter);
        proof {
            reveal_strlit("approval_revoked");
            reveal_strlit("approval_expired");
            reveal_strlit("approval_scope_incomplete");
            reveal_strlit("approval_scope_mismatch");
            reveal_strlit("approval_denied");
            assert("approval_revoked"@[9] != "approval_expired"@[9]);
            assert("approval_revoked"@.len() != "approval_scope_incomplete"@.len());
            assert("approval_revoked"@.len() != "approval_scope_mismatch"@.len());
            assert("approval_revoked"@.len() != "approval_denied"@.len());
            assert("approval_expired"@.len() != "approval_scope_incomplete"@.len());
            assert("approval_expired"@.len() != "approval_scope_mismatch"@.len());
            assert("approval_expired"@.len() != "approval_denied"@.len());
            assert("approval_scope_incomplete"@.len() != "approval_scope_mismatch"@.len());
            assert("approval_scope_incomplete"@.len() != "approval_denied"@.len());
            assert("approval_scope_mismatch"@.len() != "approval_denied"@.len());
        }
        if policy.is_expired(now) {
            return ApprovalVerification::NeedsIntervention(approval_result(false, "approval_policy_expired",
                "intervention_required", context, &policy.policy_id));
        }
        let evidence = match &action.approval_evidence {
            None => {
                return ApprovalVerification::Required(approval_result(false, "approval_required", "required",
                    context, &policy.policy_id));
            },
            Some(e) => e,
        };
        if (evidence.action_id.is_none() && evidence.action_name.is_none())
            || (adapter.is_some() && evidence.adapter.is_none()) {
            return ApprovalVerification::Denied(approval_result(false, "approval_scope_incomplete", "denied",
                context, &policy.policy_id));
        }
        let action_id_mismatch = match evidence.action_id {
            Some(id) => id != action.action_id,
            None => false,
        };
        let name_mismatch = match &evidence.action_name {
            Some(n) => *n != action.action.name,
            None => false,
        };
        let adapter_mismatch = match &evidence.adapter {
            Some(x) => match adapter {
                Some(a) => *x != *a,
                None => true,
            },
            None => false,
        };
        if evidence.tenant_id != action.tenant_id || evidence.agent_id != action.agent_id
            || evidence.run_id != action.run_id || action_id_mismatch || name_mismatch || adapter_mismatch {
            return ApprovalVerification::Denied(approval_result(false, "approval_scope_mismatch", "denied",
                context, &policy.policy_id));
        }
        if evidence.revoked {
            return ApprovalVerification::Denied(approval_result(false, "approval_revoked", "revoked",
                context, &policy.policy_id));
        }
        if evidence.expires_at.unix_nanos < now.unix_nanos {
            return ApprovalVerification::Denied(approval_result(false, "approval_expired", "expired",
                context, &policy.policy_id));
        }
        assert(!policy_expired(*policy, now));
        assert(action.approval_evidence == Some(*evidence));
        assert(!evidence.revoked);
        assert(!(evidence.expires_at.unix_nanos < now.unix_nanos));
        assert(!evidence_incomplete(*evidence, opt_ref_view(adapter)));
        assert(!evidence_mismatch(*evidence, *action, opt_ref_view(adapter)));
        match evidence.decision {
            ApprovalDecision::Granted => ApprovalVerification::Granted(approval_result(true, "approval_granted",
                "granted", context, &policy.policy_id)),
            ApprovalDecision::Denied => ApprovalVerification::Denied(approval_result(false, "approval_denied",
                "denied", context, &policy.policy_id)),
        }
    }
}

impl ApprovalVerifier for PolicyApprovalVerifier {
    fn verify_approval(&self, action: &ActionRequest, adapter: Option<&String>, now: Timestamp) -> (r: ApprovalVerification)
        ensures
            approval_decided(self.policies@, *action, opt_ref_view(adapter), now, r),
    {
        self.verify(action, adapter, now)
    }
}

} // verus!
