//! Registry of resident nodes and their runtime instances: registration,
//! heartbeats and freshness. Every mutation is audited first and is not
//! applied when auditing fails; heartbeats never move backwards and never
//! rewrite registration data.

use vstd::prelude::*;
use crate::assoc::{assoc_get, is_last_index, lemma_assoc_absent, lemma_assoc_last, lemma_assoc_push, lemma_assoc_update};
use crate::clock::{Span, Timestamp, clamp_i128};
use crate::ids::TenantId;
use crate::verification::{strs, copy_strings};

verus! {

/// Identity of a resident node.
#[derive(Clone, Copy, Debug, PartialEq, Eq, Hash, Structural)]
pub struct NodeId {
    pub value: u128,
}

/// Identity of a runtime instance.
#[derive(Clone, Copy, Debug, PartialEq, Eq, Hash, Structural)]
pub struct InstanceId {
    pub value: u128,
}

/// Reported health.
#[derive(Clone, Copy, Debug, PartialEq, Eq, Structural)]
pub enum HealthStatus {
    Healthy,
    Degraded,
    Unhealthy,
}

/// A health report and when it was observed.
#[derive(Clone, Copy, Debug, PartialEq, Eq, Structural)]
pub struct Health {
    pub status: HealthStatus,
    pub observed_at: Timestamp,
}

/// The tenant boundary a node serves, if it serves one tenant.
#[derive(Clone, Copy, Debug, PartialEq, Eq, Structural)]
pub struct NodeScope {
    pub tenant_id: Option<TenantId>,
}

/// Static registration of a node.
#[derive(Debug)]
pub struct NodeRegistration {
    pub node_id: NodeId,
    pub scope: NodeScope,
    pub registered_at: Timestamp,
    pub health: Health,
    pub capabilities: Vec<String>,
}

/// Static registration of an instance under a node.
#[derive(Debug)]
pub struct InstanceRegistration {
    pub instance_id: InstanceId,
    pub node_id: NodeId,
    pub hosted_tenants: Vec<TenantId>,
    pub registered_at: Timestamp,
    pub health: Health,
}

/// A node's health refresh.
#[derive(Clone, Copy, Debug)]
pub struct NodeHeartbeat {
    pub node_id: NodeId,
    pub recorded_at: Timestamp,
    pub health: Health,
}

/// An instance's health refresh.
#[derive(Clone, Copy, Debug)]
pub struct InstanceHeartbeat {
    pub node_id: NodeId,
    pub instance_id: InstanceId,
    pub recorded_at: Timestamp,
    pub health: Health,
}

/// Why a registry document is invalid.
#[derive(Clone, Copy, Debug, PartialEq, Eq, Structural)]
pub enum NodeRegistryValidationError {
    NilNodeId,
    NilInstanceId,
}

impl NodeRegistration {
    pub fn validate(&self) -> (r: Result<(), NodeRegistryValidationError>)
        ensures
            r is Ok <==> self.node_id.value != 0,
            r is Err ==> r == Err::<(), NodeRegistryValidationError>(NodeRegistryValidationError::NilNodeId),
    {
        if self.node_id.value == 0 { Err(NodeRegistryValidationError::NilNodeId) } else { Ok(()) }
    }
}

impl InstanceRegistration {
    pub fn validate(&self) -> (r: Result<(), NodeRegistryValidationError>)
        ensures
            r is Ok <==> self.instance_id.value != 0 && self.node_id.value != 0,
            self.instance_id.value == 0 ==> r == Err::<(), NodeRegistryValidationError>(NodeRegistryValidationError::NilInstanceId),
            self.instance_id.value != 0 && self.node_id.value == 0 ==> r == Err::<(), NodeRegistryValidationError>(NodeRegistryValidationError::NilNodeId),
    {
        if self.instance_id.value == 0 {
            Err(NodeRegistryValidationError::NilInstanceId)
        } else if self.node_id.value == 0 {
            Err(NodeRegistryValidationError::NilNodeId)
        } else {
            Ok(())
        }
    }
}

/// A registry lifecycle event.
#[derive(Clone, Copy, Debug, PartialEq, Eq, Structural)]
pub enum ManagementAuditEventKind {
    NodeRegistered { node_id: NodeId, scope: NodeScope },
    InstanceRegistered { node_id: NodeId, instance_id: InstanceId },
    NodeHeartbeatRecorded { node_id: NodeId, status: HealthStatus },
    InstanceHeartbeatRecorded { node_id: NodeId, instance_id: InstanceId, status: HealthStatus },
}

/// An audited registry event.
#[derive(Clone, Copy, Debug, PartialEq, Eq, Structural)]
pub struct ManagementAuditEvent {
    pub occurred_at: Timestamp,
    pub kind: ManagementAuditEventKind,
}

/// Why auditing failed.
#[derive(Clone, Debug, PartialEq, Eq)]
pub enum ManagementAuditError {
    Sink(String),
    StorageUnavailable,
}

/// Where registry events are audited; implemented by the registry's users.
pub trait ManagementAuditSink {
    fn record(&mut self, event: &ManagementAuditEvent) -> Result<(), ManagementAuditError>;
}

/// An audit sink that keeps events in memory.
pub struct InMemoryManagementAuditSink {
    events: Vec<ManagementAuditEvent>,
}

impl InMemoryManagementAuditSink {
    pub closed spec fn recorded(&self) -> Seq<ManagementAuditEvent> {
        self.events@
    }

    pub fn new() -> (r: InMemoryManagementAuditSink)
        ensures
            r.recorded().len() == 0,
    {
        InMemoryManagementAuditSink { events: Vec::new() }
    }

    /// The recorded events, oldest first.
    pub fn events(&self) -> (r: Result<Vec<ManagementAuditEvent>, ManagementAuditError>)
        ensures
            r matches Ok(v) && v@ == self.recorded(),
    {
        Ok(self.events.clone())
    }
}

impl ManagementAuditSink for InMemoryManagementAuditSink {
    fn record(&mut self, event: &ManagementAuditEvent) -> (r: Result<(), ManagementAuditError>)
        ensures
            r is Ok,
            final(self).recorded() == old(self).recorded().push(*event),
    {
        self.events.push(*event);
        Ok(())
    }
}

/// Registry configuration: a heartbeat is stale once `stale_after` has
/// passed since it was recorded.
#[derive(Clone, Copy, Debug, PartialEq, Eq, Structural)]
pub struct NodeRegistryConfig {
    pub stale_after: Span,
}

impl NodeRegistryConfig {
    /// Sixty seconds.
    pub open spec fn standard_spec() -> NodeRegistryConfig {
        NodeRegistryConfig { stale_after: Span { nanos: 60_000_000_000 } }
    }

    pub fn standard() -> (r: NodeRegistryConfig)
        ensures
            r.stale_after.nanos == 60_000_000_000,
            r == Self::standard_spec(),
    {
        NodeRegistryConfig { stale_after: Span::seconds(60) }
    }
}

/// A node with its current health and its instances.
#[derive(Debug)]
pub struct NodeRecord {
    pub registration: NodeRegistration,
    pub health: Health,
    pub last_heartbeat_at: Timestamp,
    pub instances: Vec<InstanceId>,
}

/// An instance with its current health.
#[derive(Debug)]
pub struct InstanceRecord {
    pub registration: InstanceRegistration,
    pub health: Health,
    pub last_heartbeat_at: Timestamp,
}

/// Whether a heartbeat is recent enough.
#[derive(Clone, Copy, Debug, PartialEq, Eq, Structural)]
pub enum HeartbeatFreshness {
    Fresh,
    Stale,
}

/// Health and freshness at a given time.
#[derive(Clone, Copy, Debug, PartialEq, Eq, Structural)]
pub struct RegistryHealthStatus {
    pub status: HealthStatus,
    pub last_heartbeat_at: Timestamp,
    pub freshness: HeartbeatFreshness,
}

/// Why a registry operation failed.
#[derive(Debug, PartialEq, Eq)]
pub enum NodeRegistryError {
    InvalidConfig(String),
    InvalidDocument(NodeRegistryValidationError),
    DuplicateNode(NodeId),
    DuplicateInstance(InstanceId),
    UnknownNode(NodeId),
    UnknownInstance(InstanceId),
    InstanceNodeMismatch { instance_id: InstanceId, expected_node_id: NodeId },
    InstanceScopeMismatch { instance_id: InstanceId, node_id: NodeId },
    HeartbeatTimestampRegression { identity: u128, last_heartbeat_at: Timestamp, attempted_at: Timestamp },
    Audit(ManagementAuditError),
    StorageUnavailable,
}

/// A heartbeat recorded at `last` is stale at `now` once `now` reaches
/// `last + stale_after`.
pub open spec fn freshness_at(stale_after: Span, last: Timestamp, now: Timestamp) -> HeartbeatFreshness {
    if now.unix_nanos >= clamp_i128(last.unix_nanos + stale_after.nanos) { HeartbeatFreshness::Stale } else { HeartbeatFreshness::Fresh }
}

fn copy_ids(v: &Vec<InstanceId>) -> (r: Vec<InstanceId>)
    ensures
        r@ == v@,
{
    let mut out: Vec<InstanceId> = Vec::new();
    let mut i: usize = 0;
    while i < v.len()
        invariant
            i <= v@.len(),
            out@ == v@.take(i as int),
        decreases v@.len() - i,
    {
        out.push(v[i]);
        i = i + 1;
        assert(out@ =~= v@.take(i as int));
    }
    assert(v@.take(v@.len() as int) =~= v@);
    out
}

fn copy_tenants(v: &Vec<TenantId>) -> (r: Vec<TenantId>)
    ensures
        r@ == v@,
{
    let mut out: Vec<TenantId> = Vec::new();
    let mut i: usize = 0;
    while i < v.len()
        invariant
            i <= v@.len(),
            out@ == v@.take(i as int),
        decreases v@.len() - i,
    {
        out.push(v[i]);
        i = i + 1;
        assert(out@ =~= v@.take(i as int));
    }
    assert(v@.take(v@.len() as int) =~= v@);
    out
}

/// Two node records agree, strings by their text.
pub open spec fn same_node(a: NodeRecord, b: NodeRecord) -> bool {
    &&& a.registration.node_id == b.registration.node_id
    &&& a.registration.scope == b.registration.scope
    &&& a.registration.registered_at == b.registration.registered_at
    &&& a.registration.health == b.registration.health
    &&& strs(a.registration.capabilities@) == strs(b.registration.capabilities@)
    &&& a.health == b.health
    &&& a.last_heartbeat_at == b.last_heartbeat_at
    &&& a.instances@ == b.instances@
}

impl NodeRecord {
    pub fn duplicate(&self) -> (r: NodeRecord)
        ensures
            same_node(r, *self),
    {
        NodeRecord {
            registration: NodeRegistration {
                node_id: self.registration.node_id,
                scope: self.registration.scope,
                registered_at: self.registration.registered_at,
                health: self.registration.health,
                capabilities: copy_strings(&self.registration.capabilities),
            },
            health: self.health,
            last_heartbeat_at: self.last_heartbeat_at,
            instances: copy_ids(&self.instances),
        }
    }
}

/// Every tenant an instance hosts is its node's tenant, where the node
/// serves one tenant.
pub open spec fn hosts_only_node_tenant(node: NodeRecord, registration: InstanceRegistration) -> bool {
    node.registration.scope.tenant_id matches Some(t)
        ==> forall|k: int| 0 <= k < registration.hosted_tenants@.len() ==> #[trigger] registration.hosted_tenants@[k] == t
}

/// Two instance records agree.
pub open spec fn same_instance(a: InstanceRecord, b: InstanceRecord) -> bool {
    &&& a.registration.instance_id == b.registration.instance_id
    &&& a.registration.node_id == b.registration.node_id
    &&& a.registration.hosted_tenants@ == b.registration.hosted_tenants@
    &&& a.registration.registered_at == b.registration.registered_at
    &&& a.registration.health == b.registration.health
    &&& a.health == b.health
    &&& a.last_heartbeat_at == b.last_heartbeat_at
}

impl InstanceRecord {
    pub fn duplicate(&self) -> (r: InstanceRecord)
        ensures
            same_instance(r, *self),
    {
        InstanceRecord {
            registration: InstanceRegistration {
                instance_id: self.registration.instance_id,
                node_id: self.registration.node_id,
                hosted_tenants: copy_tenants(&self.registration.hosted_tenants),
                registered_at: self.registration.registered_at,
                health: self.registration.health,
            },
            health: self.health,
            last_heartbeat_at: self.last_heartbeat_at,
        }
    }
}

/// In-memory registry of nodes and instances.
pub struct InMemoryNodeRegistry<A: ManagementAuditSink> {
    config: NodeRegistryConfig,
    audit_sink: A,
    nodes: Vec<(NodeId, NodeRecord)>,
    instances: Vec<(InstanceId, InstanceRecord)>,
    /// Every event handed to the audit sink, oldest first.
    audit_log: Ghost<Seq<ManagementAuditEvent>>,
}

impl InMemoryNodeRegistry<InMemoryManagementAuditSink> {
    /// An empty registry with the standard configuration and an in-memory
    /// audit sink.
    pub fn new() -> (r: Self)
        ensures
            r.settings() == NodeRegistryConfig::standard_spec(),
            r.audit_requests().len() == 0,
            forall|id: NodeId| #[trigger] r.node_of(id) is None,
            forall|id: InstanceId| #[trigger] r.instance_of(id) is None,
    {
        let r = InMemoryNodeRegistry {
            config: NodeRegistryConfig::standard(),
            audit_sink: InMemoryManagementAuditSink::new(),
            nodes: Vec::new(),
            instances: Vec::new(),
            audit_log: Ghost(Seq::empty()),
        };
        proof {
            assert forall|id: NodeId| #[trigger] r.node_of(id) is None by { lemma_assoc_absent(r.nodes@, id); }
            assert forall|id: InstanceId| #[trigger] r.instance_of(id) is None by { lemma_assoc_absent(r.instances@, id); }
        }
        r
    }
}

impl<A: ManagementAuditSink> InMemoryNodeRegistry<A> {
    pub closed spec fn node_of(&self, id: NodeId) -> Option<NodeRecord> {
        assoc_get(self.nodes@, id)
    }

    pub closed spec fn instance_of(&self, id: InstanceId) -> Option<InstanceRecord> {
        assoc_get(self.instances@, id)
    }

    pub closed spec fn settings(&self) -> NodeRegistryConfig {
        self.config
    }

    /// The events handed to the audit sink so far, oldest first, whatever
    /// the sink answered.
    pub closed spec fn audit_requests(&self) -> Seq<ManagementAuditEvent> {
        self.audit_log@
    }

    /// A node registration that passes every check before auditing.
    pub open spec fn node_admitted(&self, registration: NodeRegistration) -> bool {
        registration.node_id.value != 0 && self.node_of(registration.node_id) is None
    }

    /// An instance registration that passes every check before auditing.
    pub open spec fn instance_admitted(&self, registration: InstanceRegistration) -> bool {
        &&& registration.instance_id.value != 0
        &&& registration.node_id.value != 0
        &&& self.node_of(registration.node_id) is Some
        &&& hosts_only_node_tenant(self.node_of(registration.node_id).unwrap(), registration)
        &&& self.instance_of(registration.instance_id) is None
    }

    /// A node heartbeat that passes every check before auditing.
    pub open spec fn node_heartbeat_admitted(&self, heartbeat: NodeHeartbeat) -> bool {
        &&& heartbeat.node_id.value != 0
        &&& self.node_of(heartbeat.node_id) is Some
        &&& self.node_of(heartbeat.node_id).unwrap().last_heartbeat_at.unix_nanos <= heartbeat.recorded_at.unix_nanos
    }

    /// An instance heartbeat that passes every check before auditing.
    pub open spec fn instance_heartbeat_admitted(&self, heartbeat: InstanceHeartbeat) -> bool {
        &&& heartbeat.instance_id.value != 0
        &&& heartbeat.node_id.value != 0
        &&& self.node_of(heartbeat.node_id) is Some
        &&& self.instance_of(heartbeat.instance_id) is Some
        &&& self.instance_of(heartbeat.instance_id).unwrap().registration.node_id == heartbeat.node_id
        &&& self.instance_of(heartbeat.instance_id).unwrap().last_heartbeat_at.unix_nanos <= heartbeat.recorded_at.unix_nanos
    }

    /// A registry with a positive staleness window and an audit sink.
    pub fn with_audit_sink(config: NodeRegistryConfig, audit_sink: A) -> (r: Result<Self, NodeRegistryError>)
        ensures
            config.stale_after.nanos <= 0 <==> r is Err,
            r matches Err(e) ==> (e matches NodeRegistryError::InvalidConfig(m) && m@ == "stale_after must be greater than zero"@),
            r matches Ok(reg) ==> reg.settings() == config && reg.audit_requests().len() == 0
                && (forall|id: NodeId| #[trigger] reg.node_of(id) is None)
                && (forall|id: InstanceId| #[trigger] reg.instance_of(id) is None),
    {
        if config.stale_after.nanos <= 0 {
            return Err(NodeRegistryError::InvalidConfig(String::from_str("stale_after must be greater than zero")));
        }
        let r = InMemoryNodeRegistry { config, audit_sink, nodes: Vec::new(), instances: Vec::new(), audit_log: Ghost(Seq::empty()) };
        proof {
            assert forall|id: NodeId| #[trigger] r.node_of(id) is None by { lemma_assoc_absent(r.nodes@, id); }
            assert forall|id: InstanceId| #[trigger] r.instance_of(id) is None by { lemma_assoc_absent(r.instances@, id); }
        }
        Ok(r)
    }

    pub fn audit_sink(&self) -> (r: &A) {
        &self.audit_sink
    }

    fn find_node(&self, id: &NodeId) -> (r: Option<usize>)
        ensures
            r matches Some(i) ==> is_last_index(self.nodes@, *id, i as int) && self.node_of(*id) == Some(self.nodes@[i as int].1),
            r is None ==> self.node_of(*id) is None,
    {
        let mut i: usize = self.nodes.len();
        while i > 0
            invariant
                i <= self.nodes@.len(),
                forall|j: int| i <= j < self.nodes@.len() ==> #[trigger] self.nodes@[j].0 != *id,
            decreases i,
        {
            i = i - 1;
            if self.nodes[i].0 == *id {
                proof { lemma_assoc_last(self.nodes@, *id, i as int); }
                return Some(i);
            }
        }
        proof { lemma_assoc_absent(self.nodes@, *id); }
        None
    }

    fn find_instance(&self, id: &InstanceId) -> (r: Option<usize>)
        ensures
            r matches Some(i) ==> is_last_index(self.instances@, *id, i as int) && self.instance_of(*id) == Some(self.instances@[i as int].1),
            r is None ==> self.instance_of(*id) is None,
    {
        let mut i: usize = self.instances.len();
        while i > 0
            invariant
                i <= self.instances@.len(),
                forall|j: int| i <= j < self.instances@.len() ==> #[trigger] self.instances@[j].0 != *id,
            decreases i,
        {
            i = i - 1;
            if self.instances[i].0 == *id {
                proof { lemma_assoc_last(self.instances@, *id, i as int); }
                return Some(i);
            }
        }
        proof { lemma_assoc_absent(self.instances@, *id); }
        None
    }

    fn audit(&mut self, event: ManagementAuditEvent) -> (r: Result<(), NodeRegistryError>)
        ensures
            final(self).nodes == old(self).nodes,
            final(self).instances == old(self).instances,
            final(self).config == old(self).config,
            final(self).audit_requests() == old(self).audit_requests().push(event),
            r is Err ==> (r matches Err(NodeRegistryError::Audit(_))),
    {
        proof {
            self.audit_log@ = self.audit_log@.push(event);
        }
        match self.audit_sink.record(&event) {
            Ok(()) => Ok(()),
            Err(e) => Err(NodeRegistryError::Audit(e)),
        }
    }

    /// Registers a node after validating it; a node id already registered is
    /// refused. The node starts with its registration health, heartbeat time
    /// taken from that health, and no instances.
    pub fn register_node(&mut self, registration: NodeRegistration) -> (r: Result<NodeRecord, NodeRegistryError>)
        ensures
            final(self).settings() == old(self).settings(),
            forall|id: InstanceId| #[trigger] final(self).instance_of(id) == old(self).instance_of(id),
            registration.node_id.value == 0 ==> r == Err::<NodeRecord, NodeRegistryError>(NodeRegistryError::InvalidDocument(NodeRegistryValidationError::NilNodeId)),
            registration.node_id.value != 0 && old(self).node_of(registration.node_id) is Some
                ==> r == Err::<NodeRecord, NodeRegistryError>(NodeRegistryError::DuplicateNode(registration.node_id)),
            r is Err ==> forall|id: NodeId| #[trigger] final(self).node_of(id) == old(self).node_of(id),
            // An admitted registration is handed to the audit sink, and then
            // fails only with the sink's error; a refused one audits nothing.
            old(self).node_admitted(registration) ==> final(self).audit_requests() == old(self).audit_requests().push(ManagementAuditEvent {
                    occurred_at: registration.registered_at,
                    kind: ManagementAuditEventKind::NodeRegistered { node_id: registration.node_id, scope: registration.scope },
                }) && (r is Ok || r matches Err(NodeRegistryError::Audit(_))),
            !old(self).node_admitted(registration) ==> final(self).audit_requests() == old(self).audit_requests(),
            r matches Ok(rec) ==> {
                let stored = final(self).node_of(registration.node_id).unwrap();
                &&& old(self).node_of(registration.node_id) is None
                &&& final(self).node_of(registration.node_id) is Some
                &&& same_node(rec, stored)
                &&& stored.registration == registration
                &&& stored.health == registration.health
                &&& stored.last_heartbeat_at == registration.health.observed_at
                &&& stored.instances@.len() == 0
                &&& forall|id: NodeId| id != registration.node_id ==> #[trigger] final(self).node_of(id) == old(self).node_of(id)
            },
    {
        if let Err(e) = registration.validate() {
            return Err(NodeRegistryError::InvalidDocument(e));
        }
        if self.find_node(&registration.node_id).is_some() {
            return Err(NodeRegistryError::DuplicateNode(registration.node_id));
        }
        let event = ManagementAuditEvent {
            occurred_at: registration.registered_at,
            kind: ManagementAuditEventKind::NodeRegistered { node_id: registration.node_id, scope: registration.scope },
        };
        self.audit(event)?;
        let id = registration.node_id;
        let record = NodeRecord {
            health: registration.health,
            last_heartbeat_at: registration.health.observed_at,
            registration,
            instances: Vec::new(),
        };
        let copy = record.duplicate();
        let ghost before = self.nodes@;
        let ghost g = record;
        self.nodes.push((id, record));
        proof {
            assert forall|q: NodeId| #[trigger] assoc_get(self.nodes@, q) == if q == id { Some(g) } else { assoc_get(before, q) } by {
                lemma_assoc_push(before, id, g, q);
            }
        }
        Ok(copy)
    }

    /// Registers an instance under a registered node. A node bound to one
    /// tenant refuses an instance hosting any other tenant; an instance id
    /// already registered is refused. The instance is listed under its node.
    pub fn register_instance(&mut self, registration: InstanceRegistration) -> (r: Result<InstanceRecord, NodeRegistryError>)
        ensures
            final(self).settings() == old(self).settings(),
            r is Err ==> (forall|id: NodeId| #[trigger] final(self).node_of(id) == old(self).node_of(id))
                && (forall|id: InstanceId| #[trigger] final(self).instance_of(id) == old(self).instance_of(id)),
            registration.instance_id.value == 0
                ==> r == Err::<InstanceRecord, NodeRegistryError>(NodeRegistryError::InvalidDocument(NodeRegistryValidationError::NilInstanceId)),
            registration.instance_id.value != 0 && registration.node_id.value == 0
                ==> r == Err::<InstanceRecord, NodeRegistryError>(NodeRegistryError::InvalidDocument(NodeRegistryValidationError::NilNodeId)),
            registration.instance_id.value != 0 && registration.node_id.value != 0 && old(self).node_of(registration.node_id) is None
                ==> r == Err::<InstanceRecord, NodeRegistryError>(NodeRegistryError::UnknownNode(registration.node_id)),
            registration.instance_id.value != 0 && registration.node_id.value != 0 && old(self).node_of(registration.node_id) is Some
                && !hosts_only_node_tenant(old(self).node_of(registration.node_id).unwrap(), registration)
                ==> r == Err::<InstanceRecord, NodeRegistryError>(NodeRegistryError::InstanceScopeMismatch {
                    instance_id: registration.instance_id,
                    node_id: registration.node_id,
                }),
            registration.instance_id.value != 0 && registration.node_id.value != 0 && old(self).node_of(registration.node_id) is Some
                && hosts_only_node_tenant(old(self).node_of(registration.node_id).unwrap(), registration)
                && old(self).instance_of(registration.instance_id) is Some
                ==> r == Err::<InstanceRecord, NodeRegistryError>(NodeRegistryError::DuplicateInstance(registration.instance_id)),
            old(self).instance_admitted(registration) ==> final(self).audit_requests() == old(self).audit_requests().push(ManagementAuditEvent {
                    occurred_at: registration.registered_at,
                    kind: ManagementAuditEventKind::InstanceRegistered { node_id: registration.node_id, instance_id: registration.instance_id },
                }) && (r is Ok || r matches Err(NodeRegistryError::Audit(_))),
            !old(self).instance_admitted(registration) ==> final(self).audit_requests() == old(self).audit_requests(),
            r is Ok ==> old(self).instance_admitted(registration),
            r matches Ok(rec) ==> {
                let stored = final(self).instance_of(registration.instance_id).unwrap();
                let parent = old(self).node_of(registration.node_id).unwrap();
                &&& final(self).instance_of(registration.instance_id) is Some
                &&& same_instance(rec, stored)
                &&& stored.registration == registration
                &&& stored.last_heartbeat_at == registration.health.observed_at
                &&& final(self).node_of(registration.node_id) == Some(NodeRecord {
                        instances: final(self).node_of(registration.node_id).unwrap().instances,
                        ..parent
                    })
                &&& final(self).node_of(registration.node_id).unwrap().instances@ == parent.instances@.push(registration.instance_id)
                &&& forall|id: NodeId| id != registration.node_id ==> #[trigger] final(self).node_of(id) == old(self).node_of(id)
                &&& forall|id: InstanceId| id != registration.instance_id ==> #[trigger] final(self).instance_of(id) == old(self).instance_of(id)
            },
    {
        if let Err(e) = registration.validate() {
            return Err(NodeRegistryError::InvalidDocument(e));
        }
        let ni = match self.find_node(&registration.node_id) {
            None => return Err(NodeRegistryError::UnknownNode(registration.node_id)),
            Some(i) => i,
        };
        if let Some(parent_tenant) = self.nodes[ni].1.registration.scope.tenant_id {
            let mut k: usize = 0;
            while k < registration.hosted_tenants.len()
                invariant
                    k <= registration.hosted_tenants@.len(),
                    registration.instance_id.value != 0,
                    registration.node_id.value != 0,
                    *self == *old(self),
                    self.node_of(registration.node_id) is Some,
                    self.node_of(registration.node_id).unwrap().registration.scope.tenant_id == Some(parent_tenant),
                    forall|q: int| 0 <= q < k ==> #[trigger] registration.hosted_tenants@[q] == parent_tenant,
                decreases registration.hosted_tenants@.len() - k,
            {
                if registration.hosted_tenants[k] != parent_tenant {
                    proof {
                        assert(registration.hosted_tenants@[k as int] != parent_tenant);
                        assert(!hosts_only_node_tenant(old(self).node_of(registration.node_id).unwrap(), registration));
                    }
                    return Err(NodeRegistryError::InstanceScopeMismatch { instance_id: registration.instance_id, node_id: registration.node_id });
                }
                k = k + 1;
            }
        }
        if self.find_instance(&registration.instance_id).is_some() {
            return Err(NodeRegistryError::DuplicateInstance(registration.instance_id));
        }
        let event = ManagementAuditEvent {
            occurred_at: registration.registered_at,
            kind: ManagementAuditEventKind::InstanceRegistered { node_id: registration.node_id, instance_id: registration.instance_id },
        };
        self.audit(event)?;
        let id = registration.instance_id;
        let node_id = registration.node_id;
        let record = InstanceRecord {
            health: registration.health,
            last_heartbeat_at: registration.health.observed_at,
            registration,
        };
        let copy = record.duplicate();
        let ghost nb = self.nodes@;
        self.nodes[ni].1.instances.push(id);
        proof {
            let g = self.nodes@[ni as int].1;
            assert(self.nodes@ == nb.update(ni as int, (node_id, g)));
            assert forall|q: NodeId| #[trigger] assoc_get(self.nodes@, q) == if q == node_id { Some(g) } else { assoc_get(nb, q) } by {
                lemma_assoc_update(nb, node_id, ni as int, g, q);
            }
        }
        let ghost before = self.instances@;
        let ghost g = record;
        self.instances.push((id, record));
        proof {
            assert forall|q: InstanceId| #[trigger] assoc_get(self.instances@, q) == if q == id { Some(g) } else { assoc_get(before, q) } by {
                lemma_assoc_push(before, id, g, q);
            }
        }
        Ok(copy)
    }

    /// Records a node heartbeat: only health and heartbeat time change, and
    /// a heartbeat older than the last one is refused.
    pub fn record_node_heartbeat(&mut self, heartbeat: NodeHeartbeat) -> (r: Result<NodeRecord, NodeRegistryError>)
        ensures
            final(self).settings() == old(self).settings(),
            forall|id: InstanceId| #[trigger] final(self).instance_of(id) == old(self).instance_of(id),
            r is Err ==> forall|id: NodeId| #[trigger] final(self).node_of(id) == old(self).node_of(id),
            heartbeat.node_id.value == 0 ==> r == Err::<NodeRecord, NodeRegistryError>(NodeRegistryError::InvalidDocument(NodeRegistryValidationError::NilNodeId)),
            heartbeat.node_id.value != 0 && old(self).node_of(heartbeat.node_id) is None
                ==> r == Err::<NodeRecord, NodeRegistryError>(NodeRegistryError::UnknownNode(heartbeat.node_id)),
            heartbeat.node_id.value != 0 && old(self).node_of(heartbeat.node_id) is Some
                && heartbeat.recorded_at.unix_nanos < old(self).node_of(heartbeat.node_id).unwrap().last_heartbeat_at.unix_nanos
                ==> r == Err::<NodeRecord, NodeRegistryError>(NodeRegistryError::HeartbeatTimestampRegression {
                    identity: heartbeat.node_id.value,
                    last_heartbeat_at: old(self).node_of(heartbeat.node_id).unwrap().last_heartbeat_at,
                    attempted_at: heartbeat.recorded_at,
                }),
            old(self).node_heartbeat_admitted(heartbeat) ==> final(self).audit_requests() == old(self).audit_requests().push(ManagementAuditEvent {
                    occurred_at: heartbeat.recorded_at,
                    kind: ManagementAuditEventKind::NodeHeartbeatRecorded { node_id: heartbeat.node_id, status: heartbeat.health.status },
                }) && (r is Ok || r matches Err(NodeRegistryError::Audit(_))),
            !old(self).node_heartbeat_admitted(heartbeat) ==> final(self).audit_requests() == old(self).audit_requests(),
            r matches Ok(rec) ==> {
                let old_rec = old(self).node_of(heartbeat.node_id).unwrap();
                &&& old(self).node_of(heartbeat.node_id) is Some
                &&& old_rec.last_heartbeat_at.unix_nanos <= heartbeat.recorded_at.unix_nanos
                &&& final(self).node_of(heartbeat.node_id) == Some(NodeRecord {
                        health: heartbeat.health,
                        last_heartbeat_at: heartbeat.recorded_at,
                        ..old_rec
                    })
                &&& same_node(rec, final(self).node_of(heartbeat.node_id).unwrap())
                &&& forall|id: NodeId| id != heartbeat.node_id ==> #[trigger] final(self).node_of(id) == old(self).node_of(id)
            },
    {
        if heartbeat.node_id.value == 0 {
            return Err(NodeRegistryError::InvalidDocument(NodeRegistryValidationError::NilNodeId));
        }
        let i = match self.find_node(&heartbeat.node_id) {
            None => return Err(NodeRegistryError::UnknownNode(heartbeat.node_id)),
            Some(i) => i,
        };
        let last = self.nodes[i].1.last_heartbeat_at;
        if heartbeat.recorded_at.unix_nanos < last.unix_nanos {
            return Err(NodeRegistryError::HeartbeatTimestampRegression {
                identity: heartbeat.node_id.value,
                last_heartbeat_at: last,
                attempted_at: heartbeat.recorded_at,
            });
        }
        let event = ManagementAuditEvent {
            occurred_at: heartbeat.recorded_at,
            kind: ManagementAuditEventKind::NodeHeartbeatRecorded { node_id: heartbeat.node_id, status: heartbeat.health.status },
        };
        self.audit(event)?;
        let ghost before = self.nodes@;
        self.nodes[i].1.health = heartbeat.health;
        self.nodes[i].1.last_heartbeat_at = heartbeat.recorded_at;
        proof {
            let g = self.nodes@[i as int].1;
            assert(self.nodes@ == before.update(i as int, (heartbeat.node_id, g)));
            assert forall|q: NodeId| #[trigger] assoc_get(self.nodes@, q) == if q == heartbeat.node_id { Some(g) } else { assoc_get(before, q) } by {
                lemma_assoc_update(before, heartbeat.node_id, i as int, g, q);
            }
        }
        Ok(self.nodes[i].1.duplicate())
    }

    /// Records an instance heartbeat, which must name the instance's own
    /// node: only health and heartbeat time change, and a heartbeat older
    /// than the last one is refused.
    pub fn record_instance_heartbeat(&mut self, heartbeat: InstanceHeartbeat) -> (r: Result<InstanceRecord, NodeRegistryError>)
        ensures
            final(self).settings() == old(self).settings(),
            forall|id: NodeId| #[trigger] final(self).node_of(id) == old(self).node_of(id),
            r is Err ==> forall|id: InstanceId| #[trigger] final(self).instance_of(id) == old(self).instance_of(id),
            r matches Ok(rec) ==> {
                let old_rec = old(self).instance_of(heartbeat.instance_id).unwrap();
                &&& old(self).node_of(heartbeat.node_id) is Some
                &&& old(self).instance_of(heartbeat.instance_id) is Some
                &&& old_rec.registration.node_id == heartbeat.node_id
                &&& old_rec.last_heartbeat_at.unix_nanos <= heartbeat.recorded_at.unix_nanos
                &&& final(self).instance_of(heartbeat.instance_id) == Some(InstanceRecord {
                        health: heartbeat.health,
                        last_heartbeat_at: heartbeat.recorded_at,
                        ..old_rec
                    })
                &&& same_instance(rec, final(self).instance_of(heartbeat.instance_id).unwrap())
                &&& forall|id: InstanceId| id != heartbeat.instance_id ==> #[trigger] final(self).instance_of(id) == old(self).instance_of(id)
            },
            heartbeat.node_id.value != 0 && heartbeat.instance_id.value != 0 && old(self).node_of(heartbeat.node_id) is Some
                && old(self).instance_of(heartbeat.instance_id) is Some
                && old(self).instance_of(heartbeat.instance_id).unwrap().registration.node_id == heartbeat.node_id
                && heartbeat.recorded_at.unix_nanos < old(self).instance_of(heartbeat.instance_id).unwrap().last_heartbeat_at.unix_nanos
                ==> r == Err::<InstanceRecord, NodeRegistryError>(NodeRegistryError::HeartbeatTimestampRegression {
                    identity: heartbeat.instance_id.value,
                    last_heartbeat_at: old(self).instance_of(heartbeat.instance_id).unwrap().last_heartbeat_at,
                    attempted_at: heartbeat.recorded_at,
                }),
            heartbeat.instance_id.value == 0
                ==> r == Err::<InstanceRecord, NodeRegistryError>(NodeRegistryError::InvalidDocument(NodeRegistryValidationError::NilInstanceId)),
            heartbeat.instance_id.value != 0 && heartbeat.node_id.value == 0
                ==> r == Err::<InstanceRecord, NodeRegistryError>(NodeRegistryError::InvalidDocument(NodeRegistryValidationError::NilNodeId)),
            heartbeat.instance_id.value != 0 && heartbeat.node_id.value != 0 && old(self).node_of(heartbeat.node_id) is None
                ==> r == Err::<InstanceRecord, NodeRegistryError>(NodeRegistryError::UnknownNode(heartbeat.node_id)),
            heartbeat.instance_id.value != 0 && heartbeat.node_id.value != 0 && old(self).node_of(heartbeat.node_id) is Some
                && old(self).instance_of(heartbeat.instance_id) is None
                ==> r == Err::<InstanceRecord, NodeRegistryError>(NodeRegistryError::UnknownInstance(heartbeat.instance_id)),
            heartbeat.instance_id.value != 0 && heartbeat.node_id.value != 0 && old(self).node_of(heartbeat.node_id) is Some
                && old(self).instance_of(heartbeat.instance_id) is Some
                && old(self).instance_of(heartbeat.instance_id).unwrap().registration.node_id != heartbeat.node_id
                ==> r == Err::<InstanceRecord, NodeRegistryError>(NodeRegistryError::InstanceNodeMismatch {
                    instance_id: heartbeat.instance_id,
                    expected_node_id: old(self).instance_of(heartbeat.instance_id).unwrap().registration.node_id,
                }),
            old(self).instance_heartbeat_admitted(heartbeat) ==> final(self).audit_requests() == old(self).audit_requests().push(ManagementAuditEvent {
                    occurred_at: heartbeat.recorded_at,
                    kind: ManagementAuditEventKind::InstanceHeartbeatRecorded {
                        node_id: heartbeat.node_id,
                        instance_id: heartbeat.instance_id,
                        status: heartbeat.health.status,
                    },
                }) && (r is Ok || r matches Err(NodeRegistryError::Audit(_))),
            !old(self).instance_heartbeat_admitted(heartbeat) ==> final(self).audit_requests() == old(self).audit_requests(),
    {
        if heartbeat.instance_id.value == 0 {
            return Err(NodeRegistryError::InvalidDocument(NodeRegistryValidationError::NilInstanceId));
        }
        if heartbeat.node_id.value == 0 {
            return Err(NodeRegistryError::InvalidDocument(NodeRegistryValidationError::NilNodeId));
        }
        if self.find_node(&heartbeat.node_id).is_none() {
            return Err(NodeRegistryError::UnknownNode(heartbeat.node_id));
        }
        let i = match self.find_instance(&heartbeat.instance_id) {
            None => return Err(NodeRegistryError::UnknownInstance(heartbeat.instance_id)),
            Some(i) => i,
        };
        let expected = self.instances[i].1.registration.node_id;
        if expected != heartbeat.node_id {
            return Err(NodeRegistryError::InstanceNodeMismatch { instance_id: heartbeat.instance_id, expected_node_id: expected });
        }
        let last = self.instances[i].1.last_heartbeat_at;
        if heartbeat.recorded_at.unix_nanos < last.unix_nanos {
            return Err(NodeRegistryError::HeartbeatTimestampRegression {
                identity: heartbeat.instance_id.value,
                last_heartbeat_at: last,
                attempted_at: heartbeat.recorded_at,
            });
        }
        let event = ManagementAuditEvent {
            occurred_at: heartbeat.recorded_at,
            kind: ManagementAuditEventKind::InstanceHeartbeatRecorded {
                node_id: heartbeat.node_id,
                instance_id: heartbeat.instance_id,
                status: heartbeat.health.status,
            },
        };
        self.audit(event)?;
        let ghost before = self.instances@;
        self.instances[i].1.health = heartbeat.health;
        self.instances[i].1.last_heartbeat_at = heartbeat.recorded_at;
        proof {
            let g = self.instances@[i as int].1;
            assert(self.instances@ == before.update(i as int, (heartbeat.instance_id, g)));
            assert forall|q: InstanceId| #[trigger] assoc_get(self.instances@, q) == if q == heartbeat.instance_id { Some(g) } else { assoc_get(before, q) } by {
                lemma_assoc_update(before, heartbeat.instance_id, i as int, g, q);
            }
        }
        Ok(self.instances[i].1.duplicate())
    }

    pub fn node(&self, node_id: &NodeId) -> (r: Result<NodeRecord, NodeRegistryError>)
        ensures
            self.node_of(*node_id) is None ==> r == Err::<NodeRecord, NodeRegistryError>(NodeRegistryError::UnknownNode(*node_id)),
            self.node_of(*node_id) matches Some(n) ==> (r matches Ok(c) && same_node(c, n)),
    {
        match self.find_node(node_id) {
            None => Err(NodeRegistryError::UnknownNode(*node_id)),
            Some(i) => Ok(self.nodes[i].1.duplicate()),
        }
    }

    pub fn instance(&self, instance_id: &InstanceId) -> (r: Result<InstanceRecord, NodeRegistryError>)
        ensures
            self.instance_of(*instance_id) is None ==> r == Err::<InstanceRecord, NodeRegistryError>(NodeRegistryError::UnknownInstance(*instance_id)),
            self.instance_of(*instance_id) matches Some(n) ==> (r matches Ok(c) && same_instance(c, n)),
    {
        match self.find_instance(instance_id) {
            None => Err(NodeRegistryError::UnknownInstance(*instance_id)),
            Some(i) => Ok(self.instances[i].1.duplicate()),
        }
    }

    fn freshness(&self, last: Timestamp, now: Timestamp) -> (r: HeartbeatFreshness)
        ensures
            r == freshness_at(self.config.stale_after, last, now),
    {
        let deadline = last.plus(&self.config.stale_after);
        if now.unix_nanos >= deadline.unix_nanos { HeartbeatFreshness::Stale } else { HeartbeatFreshness::Fresh }
    }

    /// A node's health and whether its heartbeat is fresh at `now`.
    pub fn node_health_status_at(&self, node_id: &NodeId, now: Timestamp) -> (r: Result<RegistryHealthStatus, NodeRegistryError>)
        ensures
            self.node_of(*node_id) is None ==> r == Err::<RegistryHealthStatus, NodeRegistryError>(NodeRegistryError::UnknownNode(*node_id)),
            self.node_of(*node_id) matches Some(n) ==> r == Ok::<RegistryHealthStatus, NodeRegistryError>(RegistryHealthStatus {
                status: n.health.status,
                last_heartbeat_at: n.last_heartbeat_at,
                freshness: freshness_at(self.settings().stale_after, n.last_heartbeat_at, now),
            }),
    {
        match self.find_node(node_id) {
            None => Err(NodeRegistryError::UnknownNode(*node_id)),
            Some(i) => {
                let last = self.nodes[i].1.last_heartbeat_at;
                Ok(RegistryHealthStatus { status: self.nodes[i].1.health.status, last_heartbeat_at: last, freshness: self.freshness(last, now) })
            },
        }
    }

    /// An instance's health and whether its heartbeat is fresh at `now`.
    pub fn instance_health_status_at(&self, instance_id: &InstanceId, now: Timestamp) -> (r: Result<RegistryHealthStatus, NodeRegistryError>)
        ensures
            self.instance_of(*instance_id) is None ==> r == Err::<RegistryHealthStatus, NodeRegistryError>(NodeRegistryError::UnknownInstance(*instance_id)),
            self.instance_of(*instance_id) matches Some(n) ==> r == Ok::<RegistryHealthStatus, NodeRegistryError>(RegistryHealthStatus {
                status: n.health.status,
                last_heartbeat_at: n.last_heartbeat_at,
                freshness: freshness_at(self.settings().stale_after, n.last_heartbeat_at, now),
            }),
    {
        match self.find_instance(instance_id) {
            None => Err(NodeRegistryError::UnknownInstance(*instance_id)),
            Some(i) => {
                let last = self.instances[i].1.last_heartbeat_at;
                Ok(RegistryHealthStatus { status: self.instances[i].1.health.status, last_heartbeat_at: last, freshness: self.freshness(last, now) })
            },
        }
    }
}

/// Freshness only decays: once a heartbeat is stale it stays stale at every
/// later time, and a heartbeat fresh at some time was fresh at every earlier
/// time.
pub proof fn lemma_staleness_is_monotonic(stale_after: Span, last: Timestamp, now: Timestamp, later: Timestamp)
    requires
        now.unix_nanos <= later.unix_nanos,
        freshness_at(stale_after, last, now) == HeartbeatFreshness::Stale,
    ensures
        freshness_at(stale_after, last, later) == HeartbeatFreshness::Stale,
{
}

/// A newer heartbeat never makes a node staler: at any time, freshness
/// after the heartbeat is at least the freshness before it.
pub proof fn lemma_heartbeat_refreshes(stale_after: Span, last: Timestamp, recorded: Timestamp, now: Timestamp)
    requires
        last.unix_nanos <= recorded.unix_nanos,
        freshness_at(stale_after, last, now) == HeartbeatFreshness::Fresh,
    ensures
        freshness_at(stale_after, recorded, now) == HeartbeatFreshness::Fresh,
{
}

} // verus!
