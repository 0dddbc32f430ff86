//! The state graph: commits of explicit agent state to a store, snapshot
//! policy, and the authority checks that guard state handoffs between
//! runtimes.

use vstd::prelude::*;
use crate::clock::Timestamp;
use crate::ids::{AgentId, RunId, StateNodeId, TenantId, TraceEventId};
use crate::delegation::contains_str;
use crate::verification::strs;
use crate::textual::{uuid_text, uuid_string};

verus! {

/// Schema version of state handoff envelopes.
pub const STATE_HANDOFF_SCHEMA_VERSION: &'static str = "splendor.state_handoff.v0";

/// Identity of a stored snapshot.
#[derive(Clone, Copy, Debug, PartialEq, Eq, Hash, Structural)]
pub struct SnapshotId {
    pub value: u128,
}

/// Identity of stored state bytes.
#[derive(Clone, Copy, Debug, PartialEq, Eq, Hash, Structural)]
pub struct DataRef {
    pub value: u128,
}

/// State bytes with their content type.
#[derive(Clone, Debug)]
pub struct StateData {
    pub bytes: Vec<u8>,
    pub content_type: Option<String>,
}

/// Who committed a state node, when, and why.
#[derive(Clone, Debug)]
pub struct StateMetadata {
    pub created_at: Timestamp,
    pub label: Option<String>,
    pub tenant_id: Option<TenantId>,
    pub agent_id: Option<AgentId>,
    pub run_id: Option<RunId>,
    pub trace_event_id: Option<TraceEventId>,
}

impl StateMetadata {
    /// Metadata with a creation time and an optional label, bound to no one.
    pub fn new(created_at: Timestamp, label: Option<String>) -> (r: StateMetadata)
        ensures
            r.created_at == created_at,
            r.label == label,
            r.tenant_id is None,
            r.agent_id is None,
            r.run_id is None,
            r.trace_event_id is None,
    {
        StateMetadata { created_at, label, tenant_id: None, agent_id: None, run_id: None, trace_event_id: None }
    }
}

/// A stored snapshot: the node it captures and that node's state.
#[derive(Clone, Debug)]
pub struct StateSnapshot {
    pub snapshot_id: SnapshotId,
    pub node_id: StateNodeId,
    pub state: StateData,
}

/// Failure reported by a state store.
#[derive(Clone, Debug, PartialEq, Eq)]
pub enum StateStoreError {
    NotFound(String),
    Backend(String),
}

/// Persistent storage of state bytes, nodes and snapshots, implemented by the
/// users of the state graph.
pub trait StateStore {
    fn put_state(&mut self, state: StateData) -> Result<DataRef, StateStoreError>;

    fn commit_node(&mut self, parents: Vec<StateNodeId>, data: DataRef, metadata: StateMetadata) -> Result<StateNodeId, StateStoreError>;

    fn snapshot(&mut self, node_id: &StateNodeId) -> Result<SnapshotId, StateStoreError>;

    fn load_snapshot(&self, snapshot_id: &SnapshotId) -> Result<StateSnapshot, StateStoreError>;

    fn import_snapshot(&mut self, snapshot: &StateSnapshot, metadata: StateMetadata) -> Result<(StateNodeId, SnapshotId), StateStoreError>;
}

/// When snapshots are taken.
#[derive(Clone, Debug)]
pub struct SnapshotPolicy {
    pub interval: Option<u64>,
    pub important_labels: Vec<String>,
}

/// A snapshot is due at `tick` when a positive interval divides it, or when
/// the commit's label is an important one.
pub open spec fn snapshot_due(interval: Option<u64>, important: Seq<Seq<char>>, tick: u64, label: Option<Seq<char>>) -> bool {
    ||| (interval matches Some(every) && every > 0 && tick % every == 0)
    ||| (label matches Some(l) && important.contains(l))
}

pub open spec fn label_view(l: Option<String>) -> Option<Seq<char>> {
    match l {
        Some(s) => Some(s@),
        None => None,
    }
}

impl SnapshotPolicy {
    pub fn should_snapshot(&self, tick: u64, metadata: &StateMetadata) -> (r: bool)
        ensures
            r == snapshot_due(self.interval, strs(self.important_labels@), tick, label_view(metadata.label)),
    {
        let interval_hit = match self.interval {
            Some(every) => every > 0 && tick % every == 0,
            None => false,
        };
        let label_hit = match &metadata.label {
            Some(label) => contains_str(&self.important_labels, label),
            None => false,
        };
        interval_hit || label_hit
    }
}

/// The record of one commit.
#[derive(Clone, Copy, Debug, PartialEq, Eq, Structural)]
pub struct StateCommit {
    pub node_id: StateNodeId,
    pub tenant_id: Option<TenantId>,
    pub agent_id: Option<AgentId>,
    pub run_id: Option<RunId>,
    pub trace_event_id: Option<TraceEventId>,
    pub snapshot_id: Option<SnapshotId>,
}

/// Whether a handed-off state is imported or only referenced.
#[derive(Clone, Copy, Debug, PartialEq, Eq, Structural)]
pub enum StateReferenceMode {
    SnapshotImport,
    ReadOnlyReference,
}

/// The endpoints a work order may authorize.
#[derive(Clone, Copy, Debug, PartialEq, Eq, Structural)]
pub enum EndpointScope {
    RunsCreate,
    RunsResume,
    RunsTick,
    StateRead,
    TraceRead,
    ActionsSubmit,
}

/// Signature metadata of a work order.
#[derive(Clone, Debug)]
pub struct WorkOrderSignature {
    pub key_id: String,
    pub signature: String,
}

/// Whether a work order is still in force.
#[derive(Clone, Debug)]
pub enum RevocationStatus {
    Active,
    Revoked { reason: String },
}

/// The authority a work order grants.
#[derive(Clone, Debug)]
pub struct WorkOrderAuthorization {
    pub work_order_id: u128,
    pub tenant_id: TenantId,
    pub agent_id: AgentId,
    pub run_id: Option<RunId>,
    pub allowed_scopes: Vec<EndpointScope>,
    pub expires_at: Timestamp,
    pub signature: Option<WorkOrderSignature>,
    pub revocation: RevocationStatus,
}

/// The authority a handoff is bound to.
#[derive(Clone, Copy, Debug, PartialEq, Eq, Structural)]
pub struct StateHandoffAuthority {
    pub work_order_id: u128,
    pub tenant_id: TenantId,
    pub agent_id: AgentId,
    pub run_id: RunId,
}

/// The authority a receiver expects.
#[derive(Clone, Copy, Debug, PartialEq, Eq, Structural)]
pub struct StateHandoffScope {
    pub tenant_id: TenantId,
    pub agent_id: AgentId,
    pub run_id: RunId,
}

/// A snapshot handed from one runtime to another.
#[derive(Clone, Debug)]
pub struct StateHandoff {
    pub schema_version: String,
    pub handoff_id: String,
    pub mode: StateReferenceMode,
    pub authority: StateHandoffAuthority,
    pub source_instance_id: Option<String>,
    pub receiver_instance_id: Option<String>,
    pub previous_state_node_id: Option<StateNodeId>,
    pub snapshot: StateSnapshot,
    pub source_trace_id: Option<TraceEventId>,
    pub created_at: Timestamp,
}

/// A read-only reference to state owned elsewhere.
#[derive(Clone, Debug)]
pub struct StateReference {
    pub reference_id: String,
    pub mode: StateReferenceMode,
    pub authority: StateHandoffAuthority,
    pub snapshot_id: SnapshotId,
    pub source_trace_id: Option<TraceEventId>,
}

/// What a handoff export carries besides the snapshot.
#[derive(Clone, Debug)]
pub struct StateHandoffExportRequest {
    pub handoff_id: String,
    pub authority: StateHandoffAuthority,
    pub source_instance_id: Option<String>,
    pub receiver_instance_id: Option<String>,
    pub previous_state_node_id: Option<StateNodeId>,
    pub source_trace_id: Option<TraceEventId>,
    pub created_at: Timestamp,
}

/// Why a state graph operation failed.
#[derive(Clone, Debug, PartialEq, Eq)]
pub enum StateGraphError {
    Store(StateStoreError),
    InvalidHandoffMode { expected: StateReferenceMode, actual: StateReferenceMode },
    UnsupportedHandoffSchema { schema_version: String },
    IncompatibleWorkOrder,
    UnsignedWorkOrder,
    ExpiredWorkOrder,
    RevokedWorkOrder { reason: String },
    MissingTraceContinuity,
    StaleStateHead { expected: Option<StateNodeId>, actual: Option<StateNodeId> },
    ReadOnlyReferenceMutationDenied { reference_id: String },
}

/// The description of a state store failure.
pub open spec fn state_store_error_text(e: StateStoreError) -> Seq<char> {
    match e {
        StateStoreError::NotFound(d) => "not found: "@ + d@,
        StateStoreError::Backend(d) => d@,
    }
}

impl StateStoreError {
    /// Human-readable description.
    pub fn message(&self) -> (r: String)
        ensures
            r@ == state_store_error_text(*self),
    {
        match self {
            StateStoreError::NotFound(d) => String::from_str("not found: ").concat(d.as_str()),
            StateStoreError::Backend(d) => d.clone(),
        }
    }
}

/// How a handoff mode is written in descriptions.
pub open spec fn mode_text(m: StateReferenceMode) -> Seq<char> {
    match m {
        StateReferenceMode::SnapshotImport => "SnapshotImport"@,
        StateReferenceMode::ReadOnlyReference => "ReadOnlyReference"@,
    }
}

fn mode_name(m: StateReferenceMode) -> (r: &'static str)
    ensures
        r@ == mode_text(m),
{
    match m {
        StateReferenceMode::SnapshotImport => "SnapshotImport",
        StateReferenceMode::ReadOnlyReference => "ReadOnlyReference",
    }
}

/// How an optional state head is written in descriptions: `None`, or the
/// node's id quoted inside `Some(..)`.
pub open spec fn head_text(h: Option<StateNodeId>) -> Seq<char> {
    match h {
        None => "None"@,
        Some(n) => "Some(\""@ + uuid_text(n.value) + "\")"@,
    }
}

fn head_name(h: Option<StateNodeId>) -> (r: String)
    ensures
        r@ == head_text(h),
{
    match h {
        None => String::from_str("None"),
        Some(n) => String::from_str("Some(\"").concat(uuid_string(n.value).as_str()).concat("\")"),
    }
}

/// The description of a state graph error.
pub open spec fn state_graph_error_text(e: StateGraphError) -> Seq<char> {
    match e {
        StateGraphError::Store(s) => "state store error: "@ + state_store_error_text(s),
        StateGraphError::InvalidHandoffMode { expected, actual } =>
            "invalid state handoff mode: expected "@ + mode_text(expected) + ", got "@ + mode_text(actual),
        StateGraphError::UnsupportedHandoffSchema { schema_version } => "unsupported state handoff schema version: "@ + schema_version@,
        StateGraphError::IncompatibleWorkOrder => "state handoff work order is incompatible with receiver authority"@,
        StateGraphError::UnsignedWorkOrder => "state handoff work order is unsigned"@,
        StateGraphError::ExpiredWorkOrder => "state handoff work order has expired"@,
        StateGraphError::RevokedWorkOrder { reason } => "state handoff work order has been revoked: "@ + reason@,
        StateGraphError::MissingTraceContinuity => "state handoff is missing source trace continuity"@,
        StateGraphError::StaleStateHead { expected, actual } =>
            "state handoff expected receiver head "@ + head_text(expected) + " but found "@ + head_text(actual),
        StateGraphError::ReadOnlyReferenceMutationDenied { reference_id } =>
            "read-only state reference "@ + reference_id@ + " cannot be mutated"@,
    }
}

impl StateGraphError {
    /// Human-readable description.
    pub fn message(&self) -> (r: String)
        ensures
            r@ == state_graph_error_text(*self),
    {
        match self {
            StateGraphError::Store(e) => {
                let d = e.message();
                String::from_str("state store error: ").concat(d.as_str())
            },
            StateGraphError::InvalidHandoffMode { expected, actual } =>
                String::from_str("invalid state handoff mode: expected ").concat(mode_name(*expected)).concat(", got ").concat(mode_name(*actual)),
            StateGraphError::UnsupportedHandoffSchema { schema_version } =>
                String::from_str("unsupported state handoff schema version: ").concat(schema_version.as_str()),
            StateGraphError::IncompatibleWorkOrder => String::from_str("state handoff work order is incompatible with receiver authority"),
            StateGraphError::UnsignedWorkOrder => String::from_str("state handoff work order is unsigned"),
            StateGraphError::ExpiredWorkOrder => String::from_str("state handoff work order has expired"),
            StateGraphError::RevokedWorkOrder { reason } => String::from_str("state handoff work order has been revoked: ").concat(reason.as_str()),
            StateGraphError::MissingTraceContinuity => String::from_str("state handoff is missing source trace continuity"),
            StateGraphError::StaleStateHead { expected, actual } => {
                let e = head_name(*expected);
                let a = head_name(*actual);
                String::from_str("state handoff expected receiver head ").concat(e.as_str()).concat(" but found ").concat(a.as_str())
            },
            StateGraphError::ReadOnlyReferenceMutationDenied { reference_id } =>
                String::from_str("read-only state reference ").concat(reference_id.as_str()).concat(" cannot be mutated"),
        }
    }
}

/// Whether `c` has the Unicode `White_Space` property, as
/// `char::is_whitespace` decides: tab through carriage return, space, next
/// line, no-break space, ogham space mark, the spaces from en quad through
/// hair space, the line and paragraph separators, narrow no-break space,
/// medium mathematical space and ideographic space.
pub open spec fn white_space(c: char) -> bool {
    let u: u32 = c as u32;
    ||| 0x09 <= u <= 0x0D
    ||| u == 0x20
    ||| u == 0x85
    ||| u == 0xA0
    ||| u == 0x1680
    ||| 0x2000 <= u <= 0x200A
    ||| u == 0x2028
    ||| u == 0x2029
    ||| u == 0x202F
    ||| u == 0x205F
    ||| u == 0x3000
}

/// Classifies a character as white space.
pub(crate) fn char_is_whitespace(c: char) -> (r: bool)
    ensures
        r == white_space(c),
{
    let u: u32 = c as u32;
    (0x09 <= u && u <= 0x0D) || u == 0x20 || u == 0x85 || u == 0xA0 || u == 0x1680
        || (0x2000 <= u && u <= 0x200A) || u == 0x2028 || u == 0x2029 || u == 0x202F
        || u == 0x205F || u == 0x3000
}

/// A text holds only white space (what remains after trimming is empty).
pub open spec fn blank(s: Seq<char>) -> bool {
    forall|i: int| 0 <= i < s.len() ==> white_space(#[trigger] s[i])
}

pub(crate) fn is_blank(s: &String) -> (r: bool)
    ensures
        r == blank(s@),
{
    let t = s.as_str();
    let n = t.unicode_len();
    let mut i: usize = 0;
    while i < n
        invariant
            n == t@.len(),
            t@ == s@,
            i <= n,
            forall|k: int| 0 <= k < i ==> white_space(#[trigger] s@[k]),
        decreases n - i,
    {
        if !char_is_whitespace(t.get_char(i)) {
            return false;
        }
        i = i + 1;
    }
    true
}

/// The first authority check a handoff fails, in the order applied.
pub open spec fn handoff_authority_error(
    authority: StateHandoffAuthority,
    work_order: WorkOrderAuthorization,
    scope: StateHandoffScope,
    required: EndpointScope,
    now: Timestamp,
) -> Option<StateGraphError> {
    if !(work_order.signature matches Some(sig) && !blank(sig.key_id@) && !blank(sig.signature@)) {
        Some(StateGraphError::UnsignedWorkOrder)
    } else if work_order.expires_at.unix_nanos <= now.unix_nanos {
        Some(StateGraphError::ExpiredWorkOrder)
    } else if work_order.revocation is Revoked {
        Some(StateGraphError::RevokedWorkOrder { reason: work_order.revocation->reason })
    } else if work_order.work_order_id != authority.work_order_id
        || work_order.tenant_id != authority.tenant_id
        || work_order.agent_id != authority.agent_id
        || work_order.run_id != Some(authority.run_id)
        || !work_order.allowed_scopes@.contains(required)
        || scope.tenant_id != authority.tenant_id
        || scope.agent_id != authority.agent_id
        || scope.run_id != authority.run_id
    {
        Some(StateGraphError::IncompatibleWorkOrder)
    } else {
        None
    }
}

/// A revoked work order never authorizes a handoff, whatever it names: it
/// is refused as unsigned, as expired, or, once signed and unexpired, as
/// revoked with its own revocation reason.
pub proof fn law_revoked_work_order_never_authorizes(
    authority: StateHandoffAuthority,
    work_order: WorkOrderAuthorization,
    scope: StateHandoffScope,
    required: EndpointScope,
    now: Timestamp,
)
    requires
        work_order.revocation is Revoked,
    ensures
        handoff_authority_error(authority, work_order, scope, required, now) is Some,
        (work_order.signature matches Some(sig) && !blank(sig.key_id@) && !blank(sig.signature@))
            && now.unix_nanos < work_order.expires_at.unix_nanos
            ==> handoff_authority_error(authority, work_order, scope, required, now)
                == Some(StateGraphError::RevokedWorkOrder { reason: work_order.revocation->reason }),
{
}

pub(crate) fn has_scope(scopes: &Vec<EndpointScope>, s: EndpointScope) -> (r: bool)
    ensures
        r == scopes@.contains(s),
{
    let mut i: usize = 0;
    while i < scopes.len()
        invariant
            i <= scopes@.len(),
            forall|k: int| 0 <= k < i ==> scopes@[k] != s,
        decreases scopes@.len() - i,
    {
        if scopes[i] == s {
            assert(scopes@[i as int] == s);
            return true;
        }
        i = i + 1;
    }
    false
}

/// Checks that a signed, unexpired, unrevoked work order authorizes
/// `required` for exactly the handoff's tenant, agent, run and work order,
/// and that the receiver expects the same tenant, agent and run.
pub fn validate_handoff_authority(
    authority: &StateHandoffAuthority,
    work_order: &WorkOrderAuthorization,
    scope: &StateHandoffScope,
    required: EndpointScope,
    now: Timestamp,
) -> (r: Result<(), StateGraphError>)
    ensures
        r is Ok <==> handoff_authority_error(*authority, *work_order, *scope, required, now) is None,
        r matches Err(e) ==> handoff_authority_error(*authority, *work_order, *scope, required, now) == Some(e),
        // A revoked work order never authorizes: once signed and unexpired,
        // it is refused as revoked with its revocation reason.
        work_order.revocation is Revoked ==> r is Err,
        (work_order.signature matches Some(sig) && !blank(sig.key_id@) && !blank(sig.signature@))
            && now.unix_nanos < work_order.expires_at.unix_nanos
            && work_order.revocation is Revoked
            ==> (r matches Err(StateGraphError::RevokedWorkOrder { reason }) && reason == work_order.revocation->reason),
{
    match &work_order.signature {
        Some(sig) => {
            if is_blank(&sig.key_id) || is_blank(&sig.signature) {
                return Err(StateGraphError::UnsignedWorkOrder);
            }
        },
        None => return Err(StateGraphError::UnsignedWorkOrder),
    }
    if work_order.expires_at.unix_nanos <= now.unix_nanos {
        return Err(StateGraphError::ExpiredWorkOrder);
    }
    if let RevocationStatus::Revoked { reason } = &work_order.revocation {
        return Err(StateGraphError::RevokedWorkOrder { reason: reason.clone() });
    }
    if work_order.work_order_id != authority.work_order_id
        || work_order.tenant_id != authority.tenant_id
        || work_order.agent_id != authority.agent_id
        || work_order.run_id != Some(authority.run_id)
        || !has_scope(&work_order.allowed_scopes, required)
        || scope.tenant_id != authority.tenant_id
        || scope.agent_id != authority.agent_id
        || scope.run_id != authority.run_id
    {
        return Err(StateGraphError::IncompatibleWorkOrder);
    }
    Ok(())
}

/// A versioned state graph over a store: the current head node, a tick
/// counter, the snapshot policy and attached read-only references.
pub struct StateGraph<S: StateStore> {
    store: S,
    head: Option<StateNodeId>,
    tick: u64,
    policy: SnapshotPolicy,
    read_only_references: Vec<StateReference>,
    parent_log: Ghost<Seq<Seq<StateNodeId>>>,
}

/// The parents a node committed over `head` takes: the head, or none.
pub open spec fn parents_over(head: Option<StateNodeId>) -> Seq<StateNodeId> {
    match head {
        Some(h) => seq![h],
        None => seq![],
    }
}

impl<S: StateStore> StateGraph<S> {
    /// The parent lists handed to the store for the nodes committed, in order.
    pub closed spec fn committed_parents(&self) -> Seq<Seq<StateNodeId>> {
        self.parent_log@
    }

    pub closed spec fn head_spec(&self) -> Option<StateNodeId> {
        self.head
    }

    pub closed spec fn tick_spec(&self) -> u64 {
        self.tick
    }

    pub closed spec fn policy_spec(&self) -> SnapshotPolicy {
        self.policy
    }

    pub closed spec fn references(&self) -> Seq<StateReference> {
        self.read_only_references@
    }

    /// A graph with no head.
    pub fn new(store: S, policy: SnapshotPolicy) -> (r: Self)
        ensures
            r.head_spec() is None,
            r.tick_spec() == 0,
            r.policy_spec() == policy,
            r.references().len() == 0,
    {
        Self::with_head(store, None, policy)
    }

    /// A graph whose head is an existing node.
    pub fn with_head(store: S, head: Option<StateNodeId>, policy: SnapshotPolicy) -> (r: Self)
        ensures
            r.head_spec() == head,
            r.tick_spec() == 0,
            r.policy_spec() == policy,
            r.references().len() == 0,
    {
        StateGraph { store, head, tick: 0, policy, read_only_references: Vec::new(), parent_log: Ghost(Seq::empty()) }
    }

    pub fn head(&self) -> (r: Option<StateNodeId>)
        ensures
            r == self.head_spec(),
    {
        self.head
    }

    pub fn set_head(&mut self, head: Option<StateNodeId>)
        ensures
            final(self).head_spec() == head,
            final(self).tick_spec() == old(self).tick_spec(),
            final(self).policy_spec() == old(self).policy_spec(),
            final(self).references() == old(self).references(),
    {
        self.head = head;
    }

    pub fn tick(&self) -> (r: u64)
        ensures
            r == self.tick_spec(),
    {
        self.tick
    }

    pub fn set_tick(&mut self, tick: u64)
        ensures
            final(self).tick_spec() == tick,
            final(self).head_spec() == old(self).head_spec(),
            final(self).policy_spec() == old(self).policy_spec(),
            final(self).references() == old(self).references(),
    {
        self.tick = tick;
    }

    /// The store, for inspection.
    pub fn store(&self) -> (r: &S) {
        &self.store
    }

    /// Loads a snapshot and moves the head to its node.
    pub fn restore_snapshot(&mut self, snapshot_id: &SnapshotId) -> (r: Result<StateSnapshot, StateGraphError>)
        ensures
            final(self).tick_spec() == old(self).tick_spec(),
            final(self).policy_spec() == old(self).policy_spec(),
            final(self).references() == old(self).references(),
            r matches Ok(snap) ==> final(self).head_spec() == Some(snap.node_id),
            r is Err ==> final(self).head_spec() == old(self).head_spec() && (r matches Err(StateGraphError::Store(_))),
    {
        match self.store.load_snapshot(snapshot_id) {
            Ok(snapshot) => {
                self.head = Some(snapshot.node_id);
                Ok(snapshot)
            },
            Err(e) => Err(StateGraphError::Store(e)),
        }
    }

    /// Builds a handoff envelope from a stored snapshot.
    pub fn export_handoff(&self, snapshot_id: &SnapshotId, request: StateHandoffExportRequest) -> (r: Result<StateHandoff, StateGraphError>)
        ensures
            r matches Ok(h) ==> h.schema_version@ == STATE_HANDOFF_SCHEMA_VERSION@
                && h.mode == StateReferenceMode::SnapshotImport
                && h.authority == request.authority
                && h.previous_state_node_id == request.previous_state_node_id
                && h.source_trace_id == request.source_trace_id
                && h.created_at == request.created_at
                && h.handoff_id == request.handoff_id
                && h.source_instance_id == request.source_instance_id
                && h.receiver_instance_id == request.receiver_instance_id,
            r is Err ==> (r matches Err(StateGraphError::Store(_))),
    {
        match self.store.load_snapshot(snapshot_id) {
            Ok(snapshot) => Ok(StateHandoff {
                schema_version: String::from_str(STATE_HANDOFF_SCHEMA_VERSION),
                handoff_id: request.handoff_id,
                mode: StateReferenceMode::SnapshotImport,
                authority: request.authority,
                source_instance_id: request.source_instance_id,
                receiver_instance_id: request.receiver_instance_id,
                previous_state_node_id: request.previous_state_node_id,
                snapshot,
                source_trace_id: request.source_trace_id,
                created_at: request.created_at,
            }),
            Err(e) => Err(StateGraphError::Store(e)),
        }
    }

    /// Imports a handed-off snapshot. Mode, schema, authority, trace
    /// continuity and the expected previous head are all checked before the
    /// head moves; on any failure the head stays where it was.
    pub fn import_handoff(
        &mut self,
        handoff: &StateHandoff,
        work_order: &WorkOrderAuthorization,
        scope: &StateHandoffScope,
        now: Timestamp,
        metadata: StateMetadata,
    ) -> (r: Result<StateCommit, StateGraphError>)
        ensures
            final(self).tick_spec() == old(self).tick_spec(),
            final(self).policy_spec() == old(self).policy_spec(),
            final(self).references() == old(self).references(),
            r is Err ==> final(self).head_spec() == old(self).head_spec(),
            // A revoked work order never brings a handoff in.
            work_order.revocation is Revoked ==> r is Err && final(self).head_spec() == old(self).head_spec(),
            handoff.mode == StateReferenceMode::SnapshotImport && handoff.schema_version@ == STATE_HANDOFF_SCHEMA_VERSION@
                && (work_order.signature matches Some(sig) && !blank(sig.key_id@) && !blank(sig.signature@))
                && now.unix_nanos < work_order.expires_at.unix_nanos
                && work_order.revocation is Revoked
                ==> (r matches Err(StateGraphError::RevokedWorkOrder { reason }) && reason == work_order.revocation->reason),
            handoff.mode != StateReferenceMode::SnapshotImport ==> r == Err::<StateCommit, StateGraphError>(StateGraphError::InvalidHandoffMode {
                expected: StateReferenceMode::SnapshotImport, actual: handoff.mode,
            }),
            handoff.mode == StateReferenceMode::SnapshotImport && handoff.schema_version@ != STATE_HANDOFF_SCHEMA_VERSION@
                ==> (r matches Err(StateGraphError::UnsupportedHandoffSchema { schema_version }) && schema_version@ == handoff.schema_version@),
            r is Ok ==> handoff.mode == StateReferenceMode::SnapshotImport
                && handoff.schema_version@ == STATE_HANDOFF_SCHEMA_VERSION@
                && handoff_authority_error(handoff.authority, *work_order, *scope, EndpointScope::RunsResume, now) is None
                && handoff.source_trace_id is Some
                && handoff.previous_state_node_id == old(self).head_spec(),
            handoff.mode == StateReferenceMode::SnapshotImport && handoff.schema_version@ == STATE_HANDOFF_SCHEMA_VERSION@
                && handoff_authority_error(handoff.authority, *work_order, *scope, EndpointScope::RunsResume, now) is Some
                ==> r == Err::<StateCommit, StateGraphError>(handoff_authority_error(handoff.authority, *work_order, *scope, EndpointScope::RunsResume, now).unwrap()),
            handoff.mode == StateReferenceMode::SnapshotImport && handoff.schema_version@ == STATE_HANDOFF_SCHEMA_VERSION@
                && handoff_authority_error(handoff.authority, *work_order, *scope, EndpointScope::RunsResume, now) is None
                && handoff.source_trace_id is None
                ==> r == Err::<StateCommit, StateGraphError>(StateGraphError::MissingTraceContinuity),
            handoff.mode == StateReferenceMode::SnapshotImport && handoff.schema_version@ == STATE_HANDOFF_SCHEMA_VERSION@
                && handoff_authority_error(handoff.authority, *work_order, *scope, EndpointScope::RunsResume, now) is None
                && handoff.source_trace_id is Some && handoff.previous_state_node_id != old(self).head_spec()
                ==> r == Err::<StateCommit, StateGraphError>(StateGraphError::StaleStateHead {
                    expected: handoff.previous_state_node_id, actual: old(self).head_spec(),
                }),
            r matches Ok(c) ==> final(self).head_spec() == Some(c.node_id)
                && c.tenant_id == Some(handoff.authority.tenant_id)
                && c.agent_id == Some(handoff.authority.agent_id)
                && c.run_id == Some(handoff.authority.run_id)
                && c.trace_event_id == handoff.source_trace_id
                && c.snapshot_id is Some,
    {
        if handoff.mode != StateReferenceMode::SnapshotImport {
            return Err(StateGraphError::InvalidHandoffMode { expected: StateReferenceMode::SnapshotImport, actual: handoff.mode });
        }
        let expected = String::from_str(STATE_HANDOFF_SCHEMA_VERSION);
        if handoff.schema_version != expected {
            return Err(StateGraphError::UnsupportedHandoffSchema { schema_version: handoff.schema_version.clone() });
        }
        validate_handoff_authority(&handoff.authority, work_order, scope, EndpointScope::RunsResume, now)?;
        if handoff.source_trace_id.is_none() {
            return Err(StateGraphError::MissingTraceContinuity);
        }
        if handoff.previous_state_node_id != self.head {
            return Err(StateGraphError::StaleStateHead { expected: handoff.previous_state_node_id, actual: self.head });
        }
        match self.store.import_snapshot(&handoff.snapshot, metadata) {
            Ok((node_id, snapshot_id)) => {
                self.head = Some(node_id);
                Ok(StateCommit {
                    node_id,
                    tenant_id: Some(handoff.authority.tenant_id),
                    agent_id: Some(handoff.authority.agent_id),
                    run_id: Some(handoff.authority.run_id),
                    trace_event_id: handoff.source_trace_id,
                    snapshot_id: Some(snapshot_id),
                })
            },
            Err(e) => Err(StateGraphError::Store(e)),
        }
    }

    /// Attaches a read-only reference after checking its mode, its
    /// authority (for state reads) and its trace continuity.
    pub fn attach_read_only_reference(
        &mut self,
        reference: StateReference,
        work_order: &WorkOrderAuthorization,
        scope: &StateHandoffScope,
        now: Timestamp,
    ) -> (r: Result<(), StateGraphError>)
        ensures
            final(self).head_spec() == old(self).head_spec(),
            final(self).tick_spec() == old(self).tick_spec(),
            r is Ok <==> reference.mode == StateReferenceMode::ReadOnlyReference
                && handoff_authority_error(reference.authority, *work_order, *scope, EndpointScope::StateRead, now) is None
                && reference.source_trace_id is Some,
            r is Ok ==> final(self).references() == old(self).references().push(reference),
            r is Err ==> final(self).references() == old(self).references(),
            reference.mode != StateReferenceMode::ReadOnlyReference ==> r == Err::<(), StateGraphError>(StateGraphError::InvalidHandoffMode {
                expected: StateReferenceMode::ReadOnlyReference, actual: reference.mode,
            }),
            reference.mode == StateReferenceMode::ReadOnlyReference
                && handoff_authority_error(reference.authority, *work_order, *scope, EndpointScope::StateRead, now) is Some
                ==> r == Err::<(), StateGraphError>(handoff_authority_error(reference.authority, *work_order, *scope, EndpointScope::StateRead, now).unwrap()),
            reference.mode == StateReferenceMode::ReadOnlyReference
                && handoff_authority_error(reference.authority, *work_order, *scope, EndpointScope::StateRead, now) is None
                && reference.source_trace_id is None
                ==> r == Err::<(), StateGraphError>(StateGraphError::MissingTraceContinuity),
    {
        if reference.mode != StateReferenceMode::ReadOnlyReference {
            return Err(StateGraphError::InvalidHandoffMode { expected: StateReferenceMode::ReadOnlyReference, actual: reference.mode });
        }
        validate_handoff_authority(&reference.authority, work_order, scope, EndpointScope::StateRead, now)?;
        if reference.source_trace_id.is_none() {
            return Err(StateGraphError::MissingTraceContinuity);
        }
        self.read_only_references.push(reference);
        Ok(())
    }

    pub fn read_only_references(&self) -> (r: &[StateReference])
        ensures
            r@ == self.references(),
    {
        self.read_only_references.as_slice()
    }

    /// State reached through a read-only reference is never committed.
    pub fn commit_from_read_only_reference(&mut self, reference_id: String, state: StateData, metadata: StateMetadata)
        -> (r: Result<StateCommit, StateGraphError>)
        ensures
            r matches Err(StateGraphError::ReadOnlyReferenceMutationDenied { reference_id: id }) && id@ == reference_id@,
            final(self).head_spec() == old(self).head_spec(),
            final(self).tick_spec() == old(self).tick_spec(),
    {
        Err(StateGraphError::ReadOnlyReferenceMutationDenied { reference_id })
    }

    /// Commits state as a new node whose parent is the current head, moves
    /// the head to it, advances the tick, and snapshots the node when the
    /// policy says so at the new tick. On a store failure head and tick stay.
    pub fn commit(&mut self, state: StateData, metadata: StateMetadata) -> (r: Result<StateCommit, StateGraphError>)
        requires
            old(self).tick_spec() < u64::MAX,
        ensures
            final(self).policy_spec() == old(self).policy_spec(),
            final(self).references() == old(self).references(),
            r is Err ==> final(self).head_spec() == old(self).head_spec() && final(self).tick_spec() == old(self).tick_spec()
                && (r matches Err(StateGraphError::Store(_))),
            r matches Ok(c) ==> {
                &&& final(self).head_spec() == Some(c.node_id)
                &&& final(self).committed_parents() == old(self).committed_parents().push(parents_over(old(self).head_spec()))
                &&& final(self).tick_spec() == old(self).tick_spec() + 1
                &&& c.tenant_id == metadata.tenant_id
                &&& c.agent_id == metadata.agent_id
                &&& c.run_id == metadata.run_id
                &&& c.trace_event_id == metadata.trace_event_id
                &&& (c.snapshot_id is Some <==> snapshot_due(old(self).policy_spec().interval,
                        strs(old(self).policy_spec().important_labels@), (old(self).tick_spec() + 1) as u64, label_view(metadata.label)))
            },
    {
        let data_ref = match self.store.put_state(state) {
            Ok(d) => d,
            Err(e) => return Err(StateGraphError::Store(e)),
        };
        let mut parents: Vec<StateNodeId> = Vec::new();
        if let Some(h) = self.head {
            parents.push(h);
        }
        let tenant_id = metadata.tenant_id;
        let agent_id = metadata.agent_id;
        let run_id = metadata.run_id;
        let trace_event_id = metadata.trace_event_id;
        let next_tick = self.tick + 1;
        let due = self.policy.should_snapshot(next_tick, &metadata);
        assert(parents@ == parents_over(self.head));
        let ghost parent_list = parents@;
        let node_id = match self.store.commit_node(parents, data_ref, metadata) {
            Ok(n) => n,
            Err(e) => return Err(StateGraphError::Store(e)),
        };
        proof { self.parent_log@ = self.parent_log@.push(parent_list); }
        let snapshot_id = if due {
            match self.store.snapshot(&node_id) {
                Ok(s) => Some(s),
                Err(e) => return Err(StateGraphError::Store(e)),
            }
        } else {
            None
        };
        self.head = Some(node_id);
        self.tick = next_tick;
        Ok(StateCommit { node_id, tenant_id, agent_id, run_id, trace_event_id, snapshot_id })
    }
}

} // verus!
