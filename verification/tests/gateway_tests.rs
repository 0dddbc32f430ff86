use splendor::action::{Action, SideEffectClass};
use splendor::approval::{
    ApprovalDecision, ApprovalEvidence, ApprovalPolicy, ApprovalVerification, ApprovalVerifier,
    PolicyApprovalVerifier,
};
use splendor::clock::{Span, Timestamp};
use splendor::gateway::{
    combine_verifications, ActionAdapter, ActionGateway, ActionRequest, ActionStatus,
    AdapterError, AdapterResult, GatewayError, InvariantEvaluator, TenantAccess,
    UnimplementedGateway, VerifiedActionGateway,
};
use splendor::ids::{ActionId, AgentId, RunId, TenantId};
use splendor::json::Json;
use splendor::quota::QuotaUsage;
use splendor::verification::VerificationResult;
use std::cell::Cell;
use std::rc::Rc;

fn now_utc() -> Timestamp {
    Timestamp::from_unix_nanos(time::OffsetDateTime::now_utc().unix_timestamp_nanos())
}

fn field<'a>(j: &'a Json, key: &str) -> Option<&'a Json> {
    j.get(&key.to_string())
}

fn text(j: Option<&Json>) -> Option<&str> {
    match j {
        Some(Json::Str(s)) => Some(s.as_str()),
        _ => None,
    }
}

fn ok_params() -> Json {
    Json::Object(vec![("ok".to_string(), Json::Bool(true))])
}

fn id_text(value: u128) -> String {
    let h = format!("{:032x}", value);
    format!("{}-{}-{}-{}-{}", &h[0..8], &h[8..12], &h[12..16], &h[16..20], &h[20..32])
}

fn base_request() -> ActionRequest {
    ActionRequest {
        action_id: ActionId::from_u128(7),
        tenant_id: TenantId::from_u128(11),
        agent_id: AgentId::from_u128(12),
        run_id: RunId::from_u128(13),
        action: Action {
            name: "noop".to_string(),
            params: ok_params(),
            side_effect_class: SideEffectClass::ReadOnly,
            required_permissions: Vec::new(),
            preconditions: Vec::new(),
            postconditions: Vec::new(),
        },
        adapter: None,
        quota_usage: QuotaUsage::single_action(),
        satisfied_preconditions: Vec::new(),
        requested_at: now_utc(),
        approval_evidence: None,
    }
}

fn in_one_hour() -> Timestamp {
    now_utc().plus(&Span::seconds(3600))
}

struct TestTenantAccess {
    policy: VerificationResult,
    quota: VerificationResult,
}

impl TenantAccess for TestTenantAccess {
    fn verify_policy(&self, _t: &TenantId, _a: &AgentId, _action: &Action, _adapter: Option<&String>) -> VerificationResult {
        self.policy.duplicate()
    }

    fn verify_quota(&mut self, _t: &TenantId, _a: &AgentId, _usage: QuotaUsage) -> VerificationResult {
        self.quota.duplicate()
    }
}

fn allow_all() -> TestTenantAccess {
    TestTenantAccess { policy: VerificationResult::allow(), quota: VerificationResult::allow() }
}

struct AgentScopedAccess {
    allowed_agent: AgentId,
}

impl TenantAccess for AgentScopedAccess {
    fn verify_policy(&self, _t: &TenantId, agent_id: &AgentId, _action: &Action, _adapter: Option<&String>) -> VerificationResult {
        if *agent_id == self.allowed_agent {
            VerificationResult::allow()
        } else {
            VerificationResult {
                allowed: false,
                reasons: vec!["agent_permission_denied".to_string()],
                artifacts: Json::Object(vec![
                    ("source".to_string(), Json::Str("agent_isolation_ledger".to_string())),
                    ("agent_id".to_string(), Json::Str(id_text(agent_id.value))),
                ]),
            }
        }
    }

    fn verify_quota(&mut self, _t: &TenantId, _a: &AgentId, _usage: QuotaUsage) -> VerificationResult {
        VerificationResult::allow()
    }
}

struct CountingQuotaAccess {
    quota_calls: Rc<Cell<usize>>,
}

impl TenantAccess for CountingQuotaAccess {
    fn verify_policy(&self, _t: &TenantId, _a: &AgentId, _action: &Action, _adapter: Option<&String>) -> VerificationResult {
        VerificationResult::deny("policy")
    }

    fn verify_quota(&mut self, _t: &TenantId, _a: &AgentId, _usage: QuotaUsage) -> VerificationResult {
        self.quota_calls.set(self.quota_calls.get() + 1);
        VerificationResult::allow()
    }
}

enum TestAdapter {
    Counting { calls: Rc<Cell<u32>>, satisfied: Vec<String> },
    Failing,
}

impl ActionAdapter for TestAdapter {
    fn execute(&self, _action: &ActionRequest) -> Result<AdapterResult, AdapterError> {
        match self {
            TestAdapter::Counting { calls, satisfied } => {
                calls.set(calls.get() + 1);
                Ok(AdapterResult { output: ok_params(), satisfied_postconditions: satisfied.clone() })
            }
            TestAdapter::Failing => Err(AdapterError::Failed("boom".to_string())),
        }
    }
}

fn counting() -> (TestAdapter, Rc<Cell<u32>>) {
    let calls = Rc::new(Cell::new(0));
    (TestAdapter::Counting { calls: Rc::clone(&calls), satisfied: Vec::new() }, calls)
}

fn gateway_with<T: TenantAccess>(access: T) -> (VerifiedActionGateway<T, TestAdapter>, Rc<Cell<u32>>) {
    let mut gateway = VerifiedActionGateway::new(access);
    let (adapter, calls) = counting();
    gateway.register_adapter("noop".to_string(), "adapter".to_string(), adapter);
    (gateway, calls)
}

fn approval_policy_for(request: &ActionRequest) -> ApprovalPolicy {
    ApprovalPolicy {
        policy_id: "approval_policy_test".to_string(),
        tenant_id: request.tenant_id,
        agent_id: Some(request.agent_id),
        action_name: Some(request.action.name.clone()),
        adapter: Some("adapter".to_string()),
        side_effect_class: Some(request.action.side_effect_class),
        reason: "high risk action requires approval".to_string(),
        expires_at: None,
    }
}

fn approval_evidence_for(request: &ActionRequest) -> ApprovalEvidence {
    ApprovalEvidence {
        approval_id: 99,
        tenant_id: request.tenant_id,
        agent_id: request.agent_id,
        run_id: request.run_id,
        decision: ApprovalDecision::Granted,
        expires_at: in_one_hour(),
        action_id: None,
        action_name: Some(request.action.name.clone()),
        adapter: Some("adapter".to_string()),
        revoked: false,
    }
}

fn approval_gateway(request: &ActionRequest) -> (VerifiedActionGateway<TestTenantAccess, TestAdapter>, Rc<Cell<u32>>) {
    let (mut gateway, calls) = gateway_with(allow_all());
    gateway.set_approval_policies(PolicyApprovalVerifier::new(vec![approval_policy_for(request)]));
    (gateway, calls)
}

#[test]
fn unimplemented_gateway_denies_sync_and_async() {
    let mut gateway = UnimplementedGateway;
    let result = ActionGateway::submit(&mut gateway, base_request());
    assert!(matches!(result, Err(GatewayError::Unimplemented)));
    let direct = gateway.refuse(base_request());
    assert!(matches!(direct, Err(GatewayError::Unimplemented)));
}

#[test]
fn gateway_error_strings_include_details() {
    let verification = GatewayError::VerificationFailed("quota".to_string());
    let adapter = GatewayError::AdapterFailed("timeout".to_string());
    assert!(verification.message().contains("quota"));
    assert!(adapter.message().contains("timeout"));
}

#[test]
fn verified_gateway_denies_on_policy_failure() {
    let (mut gateway, calls) = gateway_with(TestTenantAccess {
        policy: VerificationResult::deny("policy"),
        quota: VerificationResult::allow(),
    });
    let outcome = gateway.submit(base_request()).expect("outcome");
    assert!(matches!(outcome.status, ActionStatus::Denied));
    assert!(!outcome.verification.allowed);
    assert_eq!(calls.get(), 0);
}

#[test]
fn verified_gateway_does_not_consume_quota_when_policy_denies() {
    let quota_calls = Rc::new(Cell::new(0));
    let (mut gateway, calls) = gateway_with(CountingQuotaAccess { quota_calls: Rc::clone(&quota_calls) });
    let outcome = gateway.submit(base_request()).expect("outcome");
    assert!(matches!(outcome.status, ActionStatus::Denied));
    assert_eq!(quota_calls.get(), 0);
    assert_eq!(calls.get(), 0);
}

#[test]
fn verified_gateway_passes_agent_id_to_policy_and_denies_laundering() {
    let allowed_agent = AgentId::from_u128(21);
    let denied_agent = AgentId::from_u128(22);
    let (mut gateway, calls) = gateway_with(AgentScopedAccess { allowed_agent });

    let mut request = base_request();
    request.agent_id = denied_agent;
    request.action.required_permissions = vec!["agent:allowed".to_string()];
    let outcome = gateway.submit(request).expect("outcome");

    assert!(matches!(outcome.status, ActionStatus::Denied));
    assert!(outcome.verification.reasons.contains(&"agent_permission_denied".to_string()));
    assert_eq!(calls.get(), 0);
    let policy = field(&outcome.verification.artifacts, "policy").expect("policy artifact");
    assert_eq!(text(field(policy, "agent_id")), Some(id_text(denied_agent.value).as_str()));

    let mut allowed_request = base_request();
    allowed_request.agent_id = allowed_agent;
    let allowed = gateway.submit(allowed_request).expect("allowed outcome");
    assert!(matches!(allowed.status, ActionStatus::Executed));
    assert_eq!(calls.get(), 1);
}

#[test]
fn verified_gateway_denies_on_quota_failure() {
    let (mut gateway, calls) = gateway_with(TestTenantAccess {
        policy: VerificationResult::allow(),
        quota: VerificationResult::deny("quota"),
    });
    let outcome = gateway.submit(base_request()).expect("outcome");
    assert!(matches!(outcome.status, ActionStatus::Denied));
    assert!(outcome.verification.reasons.contains(&"quota".to_string()));
    assert_eq!(calls.get(), 0);
}

#[test]
fn verified_gateway_denies_on_precondition_failure() {
    let (mut gateway, calls) = gateway_with(allow_all());
    let mut request = base_request();
    request.action.preconditions = vec!["ready".to_string()];
    request.satisfied_preconditions = Vec::new();
    let outcome = gateway.submit(request).expect("outcome");
    assert!(matches!(outcome.status, ActionStatus::Denied));
    assert!(!outcome.verification.allowed);
    assert_eq!(calls.get(), 0);
}

#[test]
fn verified_gateway_denies_adapter_mismatch() {
    let (mut gateway, calls) = gateway_with(allow_all());
    let mut request = base_request();
    request.adapter = Some("different".to_string());
    let outcome = gateway.submit(request).expect("outcome");
    assert!(matches!(outcome.status, ActionStatus::Denied));
    assert!(outcome.verification.reasons.contains(&"adapter_mismatch".to_string()));
    assert_eq!(calls.get(), 0);
}

#[test]
fn verified_gateway_denies_invalid_identity_before_adapter_execution() {
    let (mut gateway, calls) = gateway_with(allow_all());
    let mut request = base_request();
    request.run_id = RunId::from_u128(0);
    let outcome = gateway.submit(request).expect("outcome");
    assert!(matches!(outcome.status, ActionStatus::Denied));
    assert!(outcome.verification.reasons.contains(&"identity_invalid".to_string()));
    assert_eq!(calls.get(), 0);
}

#[test]
fn verified_gateway_reports_postcondition_failure() {
    let (mut gateway, _calls) = gateway_with(allow_all());
    let mut request = base_request();
    request.action.postconditions = vec!["done".to_string()];
    let outcome = gateway.submit(request).expect("outcome");
    assert!(matches!(outcome.status, ActionStatus::Failed));
    assert!(outcome.post_verification.is_some());
    assert!(!outcome.post_verification.expect("post").allowed);
}

#[test]
fn verified_gateway_executes_when_checks_pass() {
    let (mut gateway, calls) = gateway_with(allow_all());
    let outcome = gateway.submit(base_request()).expect("outcome");
    assert!(matches!(outcome.status, ActionStatus::Executed));
    assert_eq!(calls.get(), 1);
    assert!(outcome.output.is_some());
}

#[test]
fn approval_required_action_pauses_without_adapter_execution() {
    let request = base_request();
    let (mut gateway, calls) = approval_gateway(&request);
    let outcome = gateway.submit(request).expect("outcome");
    assert!(matches!(outcome.status, ActionStatus::NeedsApproval));
    assert!(!outcome.verification.allowed);
    assert!(outcome.verification.reasons.contains(&"approval_required".to_string()));
    assert_eq!(text(field(&outcome.verification.artifacts, "approval_status")), Some("required"));
    assert_eq!(calls.get(), 0);
}

#[test]
fn valid_scoped_approval_grant_allows_execution() {
    let mut request = base_request();
    let (mut gateway, calls) = approval_gateway(&request);
    request.approval_evidence = Some(approval_evidence_for(&request));
    let outcome = gateway.submit(request).expect("outcome");
    assert!(matches!(outcome.status, ActionStatus::Executed));
    assert_eq!(calls.get(), 1);
    let approval = field(&outcome.verification.artifacts, "approval").expect("approval artifact");
    assert_eq!(text(field(approval, "approval_status")), Some("granted"));
}

#[test]
fn approval_wrong_scope_is_denied_without_adapter_execution() {
    let variants: Vec<Box<dyn Fn(&mut ApprovalEvidence)>> = vec![
        Box::new(|e| e.tenant_id = TenantId::from_u128(501)),
        Box::new(|e| e.agent_id = AgentId::from_u128(502)),
        Box::new(|e| e.action_name = Some("different".to_string())),
        Box::new(|e| e.adapter = Some("different".to_string())),
    ];
    for change in variants {
        let mut request = base_request();
        let mut evidence = approval_evidence_for(&request);
        change(&mut evidence);
        evidence.run_id = request.run_id;
        let (mut gateway, calls) = approval_gateway(&request);
        request.approval_evidence = Some(evidence);
        let outcome = gateway.submit(request).expect("outcome");
        assert!(matches!(outcome.status, ActionStatus::Denied));
        assert!(outcome.verification.reasons.contains(&"approval_scope_mismatch".to_string()));
        assert_eq!(calls.get(), 0);
    }
}

#[test]
fn approval_incomplete_action_or_adapter_scope_is_denied_without_adapter_execution() {
    let variants: Vec<(Box<dyn Fn(&mut ApprovalEvidence)>, &str)> = vec![
        (Box::new(|e| {
            e.action_id = None;
            e.action_name = None;
        }), "action"),
        (Box::new(|e| e.adapter = None), "adapter"),
    ];
    for (change, missing_scope) in variants {
        let mut request = base_request();
        let mut evidence = approval_evidence_for(&request);
        change(&mut evidence);
        evidence.tenant_id = request.tenant_id;
        evidence.agent_id = request.agent_id;
        evidence.run_id = request.run_id;
        let (mut gateway, calls) = approval_gateway(&request);
        request.approval_evidence = Some(evidence);
        let outcome = gateway.submit(request).expect("outcome");
        assert!(matches!(outcome.status, ActionStatus::Denied), "missing {missing_scope} scope must deny");
        assert!(outcome.verification.reasons.contains(&"approval_scope_incomplete".to_string()));
        assert_eq!(calls.get(), 0);
    }
}

#[test]
fn approval_denial_expiry_and_revocation_fail_closed() {
    let variants: Vec<(Box<dyn Fn(&mut ApprovalEvidence)>, &str)> = vec![
        (Box::new(|e| e.decision = ApprovalDecision::Denied), "approval_denied"),
        (Box::new(|e| e.expires_at = now_utc().plus(&Span::seconds(-60))), "approval_expired"),
        (Box::new(|e| e.revoked = true), "approval_revoked"),
    ];
    for (change, reason) in variants {
        let mut request = base_request();
        let mut evidence = approval_evidence_for(&request);
        change(&mut evidence);
        evidence.tenant_id = request.tenant_id;
        evidence.agent_id = request.agent_id;
        evidence.run_id = request.run_id;
        evidence.action_name = Some(request.action.name.clone());
        let (mut gateway, calls) = approval_gateway(&request);
        request.approval_evidence = Some(evidence);
        let outcome = gateway.submit(request).expect("outcome");
        assert!(matches!(outcome.status, ActionStatus::Denied));
        assert!(outcome.verification.reasons.contains(&reason.to_string()));
        assert_eq!(calls.get(), 0);
    }
}

struct UnavailableApprovalVerifier;

impl ApprovalVerifier for UnavailableApprovalVerifier {
    fn verify_approval(&self, _action: &ActionRequest, _adapter: Option<&String>, _now: Timestamp) -> ApprovalVerification {
        ApprovalVerification::NeedsIntervention(VerificationResult::deny("approval_verifier_unavailable"))
    }
}

#[test]
fn approval_verifier_uncertainty_needs_intervention_without_adapter_execution() {
    let (mut gateway, calls) = gateway_with(allow_all());
    gateway.set_approval_verifier(Box::new(UnavailableApprovalVerifier));
    let outcome = gateway.submit(base_request()).expect("outcome");
    assert!(matches!(outcome.status, ActionStatus::NeedsIntervention));
    assert_eq!(calls.get(), 0);
}

#[test]
fn verified_gateway_returns_error_when_adapter_missing() {
    let mut gateway: VerifiedActionGateway<TestTenantAccess, TestAdapter> = VerifiedActionGateway::new(allow_all());
    let error = gateway.submit(base_request()).expect_err("missing adapter");
    assert!(matches!(error, GatewayError::AdapterFailed(_)));
}

#[test]
fn verified_gateway_reports_adapter_failure() {
    let mut gateway = VerifiedActionGateway::new(allow_all());
    gateway.register_adapter("noop".to_string(), "adapter".to_string(), TestAdapter::Failing);
    let outcome = gateway.submit(base_request()).expect("outcome");
    assert!(matches!(outcome.status, ActionStatus::Failed));
    assert!(outcome.error.unwrap_or_default().contains("boom"));
    assert!(outcome.output.is_none());
    assert!(outcome.post_verification.is_none());
}

#[test]
fn verified_gateway_allows_when_preconditions_satisfied() {
    let (mut gateway, calls) = gateway_with(allow_all());
    let mut request = base_request();
    request.action.preconditions = vec!["ready".to_string()];
    request.satisfied_preconditions = vec!["ready".to_string()];
    let outcome = gateway.submit(request).expect("outcome");
    assert!(matches!(outcome.status, ActionStatus::Executed));
    assert_eq!(calls.get(), 1);
}

struct EmptyReasonInvariant;

impl InvariantEvaluator for EmptyReasonInvariant {
    fn verify_pre(&self, _action: &Action, _satisfied: &[String]) -> VerificationResult {
        VerificationResult {
            allowed: false,
            reasons: Vec::new(),
            artifacts: Json::Object(vec![("detail".to_string(), Json::Str("missing".to_string()))]),
        }
    }

    fn verify_post(&self, _action: &Action, _satisfied: &[String]) -> VerificationResult {
        VerificationResult::allow()
    }
}

#[test]
fn verified_gateway_denies_with_empty_reasons() {
    let (mut gateway, calls) = gateway_with(allow_all());
    gateway.set_invariant_evaluator(Box::new(EmptyReasonInvariant));
    let outcome = gateway.submit(base_request()).expect("outcome");
    assert!(matches!(outcome.status, ActionStatus::Denied));
    assert_eq!(outcome.error.as_deref(), Some("verification denied"));
    assert_eq!(calls.get(), 0);
}

#[test]
fn combine_verifications_denies_when_reasons_empty() {
    let result = combine_verifications(vec![
        (
            "policy".to_string(),
            VerificationResult {
                allowed: false,
                reasons: Vec::new(),
                artifacts: Json::Object(vec![("detail".to_string(), Json::Str("missing".to_string()))]),
            },
        ),
        ("quota".to_string(), VerificationResult::allow()),
    ]);
    assert!(!result.allowed);
    assert!(result.reasons.is_empty());
    assert!(matches!(field(&result.artifacts, "policy"), Some(Json::Object(_))));
}

#[test]
fn gateway_error_messages_are_exact() {
    assert_eq!(GatewayError::Unimplemented.message(), "gateway is not implemented yet");
    assert_eq!(GatewayError::VerificationFailed("quota".to_string()).message(), "action verification failed: quota");
    assert_eq!(GatewayError::AdapterFailed("timeout".to_string()).message(), "adapter execution failed: timeout");
}

#[test]
fn combined_denial_keeps_each_denied_result_evidence_under_its_label() {
    let result = combine_verifications(vec![
        ("policy".to_string(), VerificationResult {
            allowed: false,
            reasons: vec!["action_not_allowed".to_string()],
            artifacts: Json::Object(vec![("action".to_string(), Json::Str("a".to_string()))]),
        }),
        ("quota".to_string(), VerificationResult::allow()),
        ("invariant".to_string(), VerificationResult {
            allowed: false,
            reasons: vec!["missing_precondition".to_string()],
            artifacts: Json::Null,
        }),
    ]);
    assert!(!result.allowed);
    assert_eq!(result.reasons, vec!["action_not_allowed".to_string(), "missing_precondition".to_string()]);
    match &result.artifacts {
        Json::Object(entries) => {
            assert_eq!(entries.len(), 1);
            assert_eq!(entries[0].0, "policy");
        },
        _ => panic!("artifacts must be an object"),
    }
}
