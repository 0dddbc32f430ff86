use splendor::action::{Action, SideEffectClass};
use splendor::clock::{Span, Timestamp};
use splendor::delegation::DelegatedAuthority;
use splendor::ids::{AgentId, TenantId};
use splendor::json::Json;
use splendor::quota::{AdapterQuota, QuotaLedger, QuotaPolicy, QuotaUsage};
use splendor::tenancy::{
    allowlisted, combine_policy_results, missing_permissions, AgentContext, AgentIsolationPolicy,
    AgentRuntimeConfig, TenantContext, TenantPolicy, TenantRegistry,
};
use splendor::verification::VerificationResult;

fn strings(v: &[&str]) -> Vec<String> {
    v.iter().map(|s| s.to_string()).collect()
}

fn action(name: &str, permissions: &[&str]) -> Action {
    Action {
        name: name.to_string(),
        params: Json::Null,
        side_effect_class: SideEffectClass::External,
        required_permissions: strings(permissions),
        preconditions: Vec::new(),
        postconditions: Vec::new(),
    }
}

fn at(seconds: i64) -> Timestamp {
    Timestamp::from_unix_nanos(seconds as i128 * 1_000_000_000)
}

fn limited(actions: Option<u32>, http: Option<u32>) -> QuotaPolicy {
    QuotaPolicy {
        max_actions_per_tick: actions,
        max_action_duration_ms: Some(1000),
        filesystem: AdapterQuota { max_read_bytes: Some(10), max_write_bytes: None },
        network: AdapterQuota::unlimited(),
        max_http_requests_per_minute: http,
    }
}

#[test]
fn empty_allowlist_allows_nothing() {
    assert!(!allowlisted(&[], &"anything".to_string()));
    assert!(allowlisted(&strings(&["a", "b"]), &"b".to_string()));
    assert!(!allowlisted(&strings(&["a", "b"]), &"c".to_string()));
}

#[test]
fn missing_permissions_keep_required_order() {
    let missing = missing_permissions(&strings(&["x", "y", "z"]), &strings(&["y"]));
    assert_eq!(missing, strings(&["x", "z"]));
    assert!(missing_permissions(&strings(&["y"]), &strings(&["y"])).is_empty());
}

#[test]
fn tenant_policy_reports_every_failed_check_in_order() {
    let policy = TenantPolicy {
        allowed_actions: strings(&["read"]),
        allowed_adapters: strings(&["fs"]),
        allowed_permissions: strings(&["p1"]),
    };
    let ok = policy.verify_action(&"read".to_string(), Some(&"fs".to_string()), &strings(&["p1"]));
    assert!(ok.allowed);
    assert!(ok.reasons.is_empty());
    let denied = policy.verify_action(&"write".to_string(), Some(&"http".to_string()), &strings(&["p2"]));
    assert!(!denied.allowed);
    assert_eq!(denied.reasons, strings(&["action_not_allowed", "adapter_not_allowed", "permission_denied"]));
    assert!(matches!(denied.artifacts, Json::Object(_)));
    let no_adapter = policy.verify_action(&"read".to_string(), None, &[]);
    assert!(no_adapter.allowed);
}

#[test]
fn combined_results_allow_only_when_both_allow() {
    let both = combine_policy_results(VerificationResult::allow(), VerificationResult::allow());
    assert!(both.allowed);
    let one = combine_policy_results(VerificationResult::deny("tenant"), VerificationResult::deny("agent"));
    assert!(!one.allowed);
    assert_eq!(one.reasons, strings(&["tenant", "agent"]));
}

#[test]
fn denied_quota_charges_nothing_and_allowed_quota_accumulates() {
    let mut ledger = QuotaLedger::new();
    let policy = limited(Some(2), None);
    let tenant = TenantId::from_u128(1);
    let agent = AgentId::from_u128(2);
    let one = QuotaUsage::single_action();
    assert!(ledger.record_usage(&policy, &tenant, &agent, one, at(10)).allowed);
    assert!(ledger.record_usage(&policy, &tenant, &agent, one, at(10)).allowed);
    let third = ledger.record_usage(&policy, &tenant, &agent, one, at(10));
    assert!(!third.allowed);
    assert_eq!(third.reasons, strings(&["max_actions_per_tick"]));
    ledger.begin_tick(2, at(11));
    assert!(ledger.record_usage(&policy, &tenant, &agent, one, at(11)).allowed);
}

#[test]
fn every_quota_limit_has_its_reason() {
    let mut ledger = QuotaLedger::new();
    let policy = limited(None, Some(1));
    let tenant = TenantId::from_u128(1);
    let agent = AgentId::from_u128(2);
    let heavy = QuotaUsage { action_duration_ms: 5000, filesystem_read_bytes: 11, http_requests: 2, ..QuotaUsage::single_action() };
    let r = ledger.record_usage(&policy, &tenant, &agent, heavy, at(10));
    assert_eq!(r.reasons, strings(&["max_action_duration_ms", "filesystem_read_bytes", "max_http_requests_per_minute"]));
}

#[test]
fn http_window_rolls_over_after_a_minute() {
    let mut ledger = QuotaLedger::new();
    let policy = limited(None, Some(1));
    let tenant = TenantId::from_u128(1);
    let agent = AgentId::from_u128(2);
    let request = QuotaUsage { http_requests: 1, ..QuotaUsage::zero() };
    assert!(ledger.record_usage(&policy, &tenant, &agent, request, at(100)).allowed);
    assert!(!ledger.record_usage(&policy, &tenant, &agent, request, at(110)).allowed);
    assert!(ledger.record_usage(&policy, &tenant, &agent, request, at(161)).allowed);
}

#[test]
fn usage_accumulates_saturating() {
    let mut usage = QuotaUsage { actions: u32::MAX - 1, ..QuotaUsage::zero() };
    usage.accumulate(QuotaUsage { actions: 5, network_read_bytes: 7, ..QuotaUsage::zero() });
    assert_eq!(usage.actions, u32::MAX);
    assert_eq!(usage.network_read_bytes, 7);
}

#[test]
fn unknown_tenants_are_denied_without_charge() {
    let mut registry = TenantRegistry::new();
    let tenant = TenantId::from_u128(5);
    let agent = AgentId::from_u128(6);
    let r = registry.check_policy(&tenant, &agent, &action("read", &[]), None);
    assert!(!r.allowed);
    assert_eq!(r.reasons, strings(&["tenant_not_found"]));
    let q = registry.charge_quota(&tenant, &agent, QuotaUsage::single_action(), at(1));
    assert_eq!(q.reasons, strings(&["tenant_not_found"]));
}

#[test]
fn registered_tenants_check_policy_and_agent_isolation() {
    let mut registry = TenantRegistry::new();
    let tenant = TenantId::from_u128(5);
    let agent = AgentId::from_u128(6);
    let mut context = TenantContext::new(
        tenant,
        TenantPolicy { allowed_actions: strings(&["read"]), allowed_adapters: Vec::new(), allowed_permissions: strings(&["p"]) },
        QuotaPolicy::unlimited(),
    );
    context.register_agent_policy(agent, AgentIsolationPolicy {
        allowed_permissions: Vec::new(),
        allowed_message_schemas: Vec::new(),
        allowed_message_recipients: Vec::new(),
    });
    registry.insert(context);
    assert!(registry.check_policy(&tenant, &agent, &action("read", &[]), None).allowed);
    let denied = registry.check_policy(&tenant, &agent, &action("read", &["p"]), None);
    assert!(!denied.allowed);
    assert!(denied.reasons.contains(&"agent_permission_denied".to_string()));
    assert!(registry.charge_quota(&tenant, &agent, QuotaUsage::single_action(), at(1)).allowed);
}

#[test]
fn delegated_authority_narrows_actions() {
    let agent = AgentContext::new(AgentId::from_u128(1), TenantId::from_u128(2), AgentRuntimeConfig::empty());
    assert!(agent.verify_delegated_action(&action("anything", &[]), None).allowed);
    let scoped = agent.with_delegated_authority(DelegatedAuthority {
        allowed_actions: strings(&["read"]),
        allowed_adapters: strings(&["fs"]),
        allowed_permissions: Vec::new(),
    });
    assert!(scoped.verify_delegated_action(&action("read", &[]), Some(&"fs".to_string())).allowed);
    let denied = scoped.verify_delegated_action(&action("write", &["p"]), Some(&"http".to_string()));
    assert!(!denied.allowed);
    assert!(denied.reasons.contains(&"delegated_action_not_allowed".to_string()));
}

#[test]
fn span_arithmetic_is_exact() {
    assert_eq!(Span::seconds(2).nanos, 2_000_000_000);
    assert_eq!(Span::minutes(1).nanos, 60_000_000_000);
    assert_eq!(at(5).since(&at(3)).nanos, 2_000_000_000);
    assert_eq!(at(3).plus(&Span::seconds(4)), at(7));
}

#[test]
fn with_tenant_runs_only_on_a_registered_tenant() {
    let mut registry = TenantRegistry::new();
    let policy = TenantPolicy { allowed_actions: strings(&["a"]), allowed_adapters: Vec::new(), allowed_permissions: Vec::new() };
    registry.insert(TenantContext::new(TenantId::from_u128(3), policy, QuotaPolicy::unlimited()));
    let actions = registry.with_tenant(&TenantId::from_u128(3), |t| t.policy.allowed_actions.len());
    assert_eq!(actions, Some(1));
    let usage = registry.with_tenant(&TenantId::from_u128(3), |t| t.tick_usage());
    assert_eq!(usage, Some(QuotaUsage { actions: 0, ..usage.unwrap() }));
    assert_eq!(registry.with_tenant(&TenantId::from_u128(4), |_| ()), None);
}
