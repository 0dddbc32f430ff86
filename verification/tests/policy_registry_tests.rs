use splendor::action::{Action, SideEffectClass};
use splendor::clock::{Span, Timestamp};
use splendor::gateway::{ActionGateway, ActionRequest, ActionStatus, UnimplementedGateway};
use splendor::ids::{ActionId, AgentId, RunId, TenantId};
use splendor::json::Json;
use splendor::node_registry::{
    Health, HealthStatus, HeartbeatFreshness, InMemoryManagementAuditSink, InMemoryNodeRegistry,
    InstanceHeartbeat, InstanceId, InstanceRegistration, NodeHeartbeat, NodeId, NodeRegistration,
    ManagementAuditEventKind, NodeRegistryConfig, NodeRegistryError, NodeRegistryValidationError, NodeScope,
};
use splendor::policy_cache::{
    sanitize_policy_reason, DegradedMode, PolicyBundle, PolicyCache, PolicyCacheConfig,
    PolicyDistributionGateway, PolicyDistributionStatus, PolicyRuntimeAuthority, PolicyRuntimeDecision,
};
use splendor::quota::QuotaUsage;
use splendor::trace::TraceEventKind;

fn now_utc() -> Timestamp {
    Timestamp::from_unix_nanos(time::OffsetDateTime::now_utc().unix_timestamp_nanos())
}

fn at(seconds: i64) -> Timestamp {
    Timestamp::from_unix_nanos(seconds as i128 * 1_000_000_000)
}

fn bundle(expires: i64, allow_low_risk_cached: bool) -> PolicyBundle {
    PolicyBundle {
        policy_bundle_id: 42,
        version: "v1".to_string(),
        expires_at: at(expires),
        degraded_mode: DegradedMode { allow_low_risk_cached },
    }
}

fn request(class: SideEffectClass) -> ActionRequest {
    ActionRequest {
        action_id: ActionId::from_u128(1),
        tenant_id: TenantId::from_u128(2),
        agent_id: AgentId::from_u128(3),
        run_id: RunId::from_u128(4),
        action: Action {
            name: "act".to_string(),
            params: Json::Null,
            side_effect_class: class,
            required_permissions: Vec::new(),
            preconditions: Vec::new(),
            postconditions: Vec::new(),
        },
        adapter: None,
        quota_usage: QuotaUsage::single_action(),
        satisfied_preconditions: Vec::new(),
        requested_at: at(0),
        approval_evidence: None,
    }
}

#[test]
fn policy_reasons_are_trimmed_or_redacted() {
    assert_eq!(sanitize_policy_reason("  central_revocation  ".to_string()), "central_revocation");
    assert_eq!(sanitize_policy_reason("   ".to_string()), "policy_reason_unspecified");
    assert_eq!(sanitize_policy_reason("rotated signature=abc".to_string()), "policy_reason_redacted");
    assert_eq!(sanitize_policy_reason("leaked_TOKEN".to_string()), "policy_reason_redacted");
    assert_eq!(sanitize_policy_reason("has space".to_string()), "policy_reason_redacted");
    assert_eq!(sanitize_policy_reason("a".repeat(81)), "policy_reason_redacted");
    assert_eq!(sanitize_policy_reason("a".repeat(80)), "a".repeat(80));
}

#[test]
fn missing_bundle_is_allowed_only_without_enforcement() {
    let open = PolicyCache::new(PolicyCacheConfig { enforcement_required: false });
    assert!(open.verify_policy_invocation("p", at(0)).verification.allowed);
    let enforced = PolicyCache::new(PolicyCacheConfig { enforcement_required: true });
    let d = enforced.verify_policy_invocation("p", at(0));
    assert!(!d.verification.allowed);
    assert_eq!(d.verification.reasons, vec!["policy_unavailable".to_string()]);
    assert!(d.trace_event.is_none());
}

#[test]
fn revocation_fails_closed_with_a_redacted_reason() {
    let mut cache = PolicyCache::with_bundle(bundle(1000, true), at(0));
    assert!(cache.verify_policy_action(&request(SideEffectClass::External), at(10)).allowed);
    cache.revoke_current("central revocation signature=raw-secret".to_string()).expect("revoked");
    let d = cache.verify_policy_invocation("p", at(10));
    assert_eq!(d.verification.reasons, vec!["policy_revoked".to_string()]);
    match d.trace_event {
        Some(TraceEventKind::PolicyRevoked { reason, .. }) => assert_eq!(reason, "policy_reason_redacted"),
        other => panic!("revocation event expected, got {:?}", other),
    }
    assert!(!cache.verify_policy_action(&request(SideEffectClass::ReadOnly), at(10)).allowed);
}

#[test]
fn expired_bundles_allow_only_cached_low_risk_reads_while_disconnected() {
    let mut cache = PolicyCache::with_bundle(bundle(100, true), at(0));
    let external = cache.verify_policy_action(&request(SideEffectClass::External), at(200));
    assert_eq!(external.reasons, vec!["policy_expired".to_string()]);
    assert!(!cache.verify_policy_action(&request(SideEffectClass::ReadOnly), at(200)).allowed);
    cache.set_disconnected(true);
    assert!(cache.verify_policy_action(&request(SideEffectClass::ReadOnly), at(200)).allowed);
    assert!(!cache.verify_policy_action(&request(SideEffectClass::External), at(200)).allowed);
    let strict = PolicyCache::with_bundle(bundle(100, false), at(0));
    assert!(!strict.verify_policy_action(&request(SideEffectClass::ReadOnly), at(200)).allowed);
}

#[test]
fn sync_failures_keep_cached_authority() {
    let mut cache = PolicyCache::with_bundle(bundle(1000, true), at(0));
    let before = cache.verify_policy_action(&request(SideEffectClass::External), at(10)).allowed;
    let failure = cache.record_sync_failure("upstream token=abc".to_string(), at(5));
    assert_eq!(failure.reason, "policy_reason_redacted");
    assert_eq!(cache.verify_policy_action(&request(SideEffectClass::External), at(10)).allowed, before);
    assert_eq!(cache.snapshot().last_sync_failure.map(|f| f.reason), Some("policy_reason_redacted".to_string()));
}

#[test]
fn distribution_gateway_denies_before_the_inner_gateway() {
    let cache = PolicyCache::new(PolicyCacheConfig { enforcement_required: true });
    let mut gateway = PolicyDistributionGateway::new(UnimplementedGateway, cache);
    let outcome = gateway.submit_at(request(SideEffectClass::External), at(0)).expect("denied outcome");
    assert!(matches!(outcome.status, ActionStatus::Denied));
    assert_eq!(outcome.verification.reasons, vec!["policy_unavailable".to_string()]);
    let installed = PolicyCache::with_bundle(bundle(i64::MAX / 2_000_000_000, true), at(0));
    let mut passthrough = PolicyDistributionGateway::new(UnimplementedGateway, installed);
    assert!(passthrough.submit(request(SideEffectClass::External)).is_err());
}

fn health(status: HealthStatus, t: i64) -> Health {
    Health { status, observed_at: at(t) }
}

fn registry() -> InMemoryNodeRegistry<InMemoryManagementAuditSink> {
    InMemoryNodeRegistry::with_audit_sink(NodeRegistryConfig::standard(), InMemoryManagementAuditSink::new()).expect("registry")
}

fn node(id: u128, tenant: Option<u128>) -> NodeRegistration {
    NodeRegistration {
        node_id: NodeId { value: id },
        scope: NodeScope { tenant_id: tenant.map(TenantId::from_u128) },
        registered_at: at(0),
        health: health(HealthStatus::Healthy, 0),
        capabilities: vec!["tick".to_string()],
    }
}

#[test]
fn nodes_register_once_and_heartbeats_refresh() {
    let mut r = registry();
    r.register_node(node(1, None)).expect("registered");
    assert!(matches!(r.register_node(node(1, None)), Err(NodeRegistryError::DuplicateNode(_))));
    assert!(matches!(r.register_node(node(0, None)), Err(NodeRegistryError::InvalidDocument(_))));
    let status = r.node_health_status_at(&NodeId { value: 1 }, at(59)).expect("status");
    assert_eq!(status.freshness, HeartbeatFreshness::Fresh);
    let status = r.node_health_status_at(&NodeId { value: 1 }, at(60)).expect("status");
    assert_eq!(status.freshness, HeartbeatFreshness::Stale);
    r.record_node_heartbeat(NodeHeartbeat { node_id: NodeId { value: 1 }, recorded_at: at(100), health: health(HealthStatus::Degraded, 100) })
        .expect("heartbeat");
    let status = r.node_health_status_at(&NodeId { value: 1 }, at(120)).expect("status");
    assert_eq!(status.freshness, HeartbeatFreshness::Fresh);
    assert_eq!(status.status, HealthStatus::Degraded);
    let regressed = r.record_node_heartbeat(NodeHeartbeat { node_id: NodeId { value: 1 }, recorded_at: at(50), health: health(HealthStatus::Healthy, 50) });
    assert!(matches!(regressed, Err(NodeRegistryError::HeartbeatTimestampRegression { .. })));
    let events = r.audit_sink().events().expect("events");
    assert_eq!(events.len(), 2);
}

#[test]
fn instances_must_match_their_node_and_scope() {
    let mut r = registry();
    r.register_node(node(1, Some(7))).expect("registered");
    let unknown = r.register_instance(InstanceRegistration {
        instance_id: InstanceId { value: 5 },
        node_id: NodeId { value: 2 },
        hosted_tenants: Vec::new(),
        registered_at: at(0),
        health: health(HealthStatus::Healthy, 0),
    });
    assert!(matches!(unknown, Err(NodeRegistryError::UnknownNode(_))));
    let foreign = r.register_instance(InstanceRegistration {
        instance_id: InstanceId { value: 5 },
        node_id: NodeId { value: 1 },
        hosted_tenants: vec![TenantId::from_u128(8)],
        registered_at: at(0),
        health: health(HealthStatus::Healthy, 0),
    });
    assert!(matches!(foreign, Err(NodeRegistryError::InstanceScopeMismatch { .. })));
    r.register_instance(InstanceRegistration {
        instance_id: InstanceId { value: 5 },
        node_id: NodeId { value: 1 },
        hosted_tenants: vec![TenantId::from_u128(7)],
        registered_at: at(0),
        health: health(HealthStatus::Healthy, 0),
    })
    .expect("instance");
    assert_eq!(r.node(&NodeId { value: 1 }).expect("node").instances, vec![InstanceId { value: 5 }]);
    let unknown_node = r.record_instance_heartbeat(InstanceHeartbeat {
        node_id: NodeId { value: 9 },
        instance_id: InstanceId { value: 5 },
        recorded_at: at(10),
        health: health(HealthStatus::Healthy, 10),
    });
    assert!(matches!(unknown_node, Err(NodeRegistryError::UnknownNode(_))));
    r.register_node(node(2, Some(7))).expect("second node");
    let wrong_node = r.record_instance_heartbeat(InstanceHeartbeat {
        node_id: NodeId { value: 2 },
        instance_id: InstanceId { value: 5 },
        recorded_at: at(10),
        health: health(HealthStatus::Healthy, 10),
    });
    assert!(matches!(wrong_node, Err(NodeRegistryError::InstanceNodeMismatch { .. })));
    assert!(matches!(r.instance(&InstanceId { value: 6 }), Err(NodeRegistryError::UnknownInstance(_))));
}

#[test]
fn zero_staleness_is_refused() {
    let r = InMemoryNodeRegistry::with_audit_sink(NodeRegistryConfig { stale_after: Span::seconds(0) }, InMemoryManagementAuditSink::new());
    assert!(matches!(r, Err(NodeRegistryError::InvalidConfig(_))));
    let _ = now_utc();
}


#[test]
fn runtime_decision_allow_lets_policy_run_untraced() {
    let d = PolicyRuntimeDecision::allow();
    assert!(d.verification.allowed);
    assert!(d.verification.reasons.is_empty());
    assert!(d.trace_event.is_none());
}

#[test]
fn standard_node_registry_starts_empty() {
    let registry = InMemoryNodeRegistry::new();
    assert!(registry.node(&NodeId { value: 1 }).is_err());
    assert_eq!(NodeRegistryConfig::standard().stale_after.nanos, 60_000_000_000);
}

fn instance_registration(id: u128, node_id: u128, tenants: &[u128]) -> InstanceRegistration {
    InstanceRegistration {
        instance_id: InstanceId { value: id },
        node_id: NodeId { value: node_id },
        hosted_tenants: tenants.iter().map(|t| TenantId::from_u128(*t)).collect(),
        registered_at: at(3),
        health: health(HealthStatus::Healthy, 3),
    }
}

#[test]
fn instance_registration_refusals_come_in_order_and_audit_nothing() {
    let mut r = registry();
    r.register_node(node(1, Some(7))).expect("registered");
    assert!(matches!(
        r.register_instance(instance_registration(0, 0, &[])),
        Err(NodeRegistryError::InvalidDocument(NodeRegistryValidationError::NilInstanceId))
    ));
    assert!(matches!(
        r.register_instance(instance_registration(5, 0, &[])),
        Err(NodeRegistryError::InvalidDocument(NodeRegistryValidationError::NilNodeId))
    ));
    match r.register_instance(instance_registration(5, 1, &[7, 8])) {
        Err(NodeRegistryError::InstanceScopeMismatch { instance_id, node_id }) => {
            assert_eq!(instance_id, InstanceId { value: 5 });
            assert_eq!(node_id, NodeId { value: 1 });
        }
        other => panic!("expected a scope mismatch, got {:?}", other.map(|_| ())),
    }
    r.register_instance(instance_registration(5, 1, &[7])).expect("instance");
    assert!(matches!(
        r.register_instance(instance_registration(5, 1, &[7])),
        Err(NodeRegistryError::DuplicateInstance(InstanceId { value: 5 }))
    ));
    let events = r.audit_sink().events().expect("events");
    assert_eq!(events.len(), 2);
    assert_eq!(
        events[1].kind,
        ManagementAuditEventKind::InstanceRegistered { node_id: NodeId { value: 1 }, instance_id: InstanceId { value: 5 } }
    );
    assert_eq!(events[1].occurred_at, at(3));
}

#[test]
fn instance_heartbeat_refusals_each_name_their_cause() {
    let mut r = registry();
    r.register_node(node(1, None)).expect("registered");
    r.register_instance(instance_registration(5, 1, &[])).expect("instance");
    let beat = |instance: u128, node_id: u128, t: i64| InstanceHeartbeat {
        node_id: NodeId { value: node_id },
        instance_id: InstanceId { value: instance },
        recorded_at: at(t),
        health: health(HealthStatus::Degraded, t),
    };
    assert!(matches!(
        r.record_instance_heartbeat(beat(0, 1, 10)),
        Err(NodeRegistryError::InvalidDocument(NodeRegistryValidationError::NilInstanceId))
    ));
    assert!(matches!(
        r.record_instance_heartbeat(beat(5, 0, 10)),
        Err(NodeRegistryError::InvalidDocument(NodeRegistryValidationError::NilNodeId))
    ));
    assert!(matches!(r.record_instance_heartbeat(beat(6, 1, 10)), Err(NodeRegistryError::UnknownInstance(InstanceId { value: 6 }))));
    assert!(matches!(
        r.record_instance_heartbeat(beat(5, 1, 1)),
        Err(NodeRegistryError::HeartbeatTimestampRegression { .. })
    ));
    let updated = r.record_instance_heartbeat(beat(5, 1, 10)).expect("heartbeat");
    assert_eq!(updated.health.status, HealthStatus::Degraded);
    assert_eq!(updated.last_heartbeat_at, at(10));
    let events = r.audit_sink().events().expect("events");
    assert_eq!(events.len(), 3);
    assert_eq!(
        events[2].kind,
        ManagementAuditEventKind::InstanceHeartbeatRecorded {
            node_id: NodeId { value: 1 },
            instance_id: InstanceId { value: 5 },
            status: HealthStatus::Degraded,
        }
    );
}
