//! Tenant and agent contexts: allowlists, agent isolation profiles and quota
//! enforcement. The tenant policy bounds what any agent may do; an agent's
//! isolation profile narrows the permissions that agent holds.

use vstd::prelude::*;
use crate::assoc::{assoc_get, assoc_absent, is_last_index, lemma_assoc_absent, lemma_assoc_last, lemma_assoc_push, lemma_assoc_update};
use crate::clock::Timestamp;
use crate::ids::{AgentId, TenantId, StateNodeId};
use crate::json::Json;
use crate::quota::{QuotaLedger, QuotaPolicy, QuotaUsage, reason_if, quota_reasons, accumulated, sat_add_u32, zero_usage};
use crate::textual::uuid_string;
use crate::verification::{VerificationResult, strs, copy_strings};
use crate::delegation::DelegatedAuthority;

verus! {

/// Source label embedded in agent-isolation denial artifacts.
pub const AGENT_ISOLATION_LEDGER_SOURCE: &'static str = "agent_isolation_ledger";

/// A value is allowlisted when the list is non-empty and holds it.
pub open spec fn allowlisted_spec(list: Seq<Seq<char>>, value: Seq<char>) -> bool {
    list.len() > 0 && list.contains(value)
}

/// The entries of `required` that `allowed` does not allowlist, in order.
pub open spec fn missing_from(required: Seq<Seq<char>>, allowed: Seq<Seq<char>>) -> Seq<Seq<char>>
    decreases required.len(),
{
    if required.len() == 0 {
        seq![]
    } else {
        let rest = missing_from(required.drop_last(), allowed);
        if allowlisted_spec(allowed, required.last()) {
            rest
        } else {
            rest.push(required.last())
        }
    }
}

/// Whether `value` is allowlisted by `allowlist`.
pub fn allowlisted(allowlist: &[String], value: &String) -> (r: bool)
    ensures
        r == allowlisted_spec(strs(allowlist@), value@),
{
    if allowlist.len() == 0 {
        return false;
    }
    let mut i: usize = 0;
    while i < allowlist.len()
        invariant
            i <= allowlist@.len(),
            forall|j: int| 0 <= j < i ==> #[trigger] allowlist@[j]@ != value@,
        decreases allowlist@.len() - i,
    {
        if allowlist[i] == *value {
            assert(strs(allowlist@)[i as int] == value@);
            return true;
        }
        i = i + 1;
    }
    assert(!strs(allowlist@).contains(value@));
    false
}

/// The required entries that `allowed` does not allowlist.
pub fn missing_permissions(required: &[String], allowed: &[String]) -> (r: Vec<String>)
    ensures
        strs(r@) == missing_from(strs(required@), strs(allowed@)),
{
    let mut out: Vec<String> = Vec::new();
    let mut i: usize = 0;
    while i < required.len()
        invariant
            i <= required@.len(),
            strs(out@) == missing_from(strs(required@).take(i as int), strs(allowed@)),
        decreases required@.len() - i,
    {
        let ghost prefix = strs(required@).take(i as int + 1);
        assert(prefix.drop_last() =~= strs(required@).take(i as int));
        assert(prefix.last() == required@[i as int]@);
        if !allowlisted(allowed, &required[i]) {
            out.push(required[i].clone());
            assert(strs(out@) =~= missing_from(prefix, strs(allowed@)));
        }
        i = i + 1;
    }
    assert(strs(required@).take(required@.len() as int) =~= strs(required@));
    out
}

/// Policy describing what a tenant's agents may do.
#[derive(Clone, Debug)]
pub struct TenantPolicy {
    pub allowed_actions: Vec<String>,
    pub allowed_adapters: Vec<String>,
    pub allowed_permissions: Vec<String>,
}

pub open spec fn adapter_denied(allowed_adapters: Seq<Seq<char>>, adapter: Option<Seq<char>>) -> bool {
    match adapter {
        Some(a) => !allowlisted_spec(allowed_adapters, a),
        None => false,
    }
}

/// Reason codes of a tenant policy check, in order.
pub open spec fn tenant_policy_reasons(
    p: TenantPolicy,
    action_name: Seq<char>,
    adapter: Option<Seq<char>>,
    required: Seq<Seq<char>>,
) -> Seq<Seq<char>> {
    reason_if(!allowlisted_spec(strs(p.allowed_actions@), action_name), "action_not_allowed"@)
    + reason_if(adapter_denied(strs(p.allowed_adapters@), adapter), "adapter_not_allowed"@)
    + reason_if(missing_from(required, strs(p.allowed_permissions@)).len() > 0, "permission_denied"@)
}

pub open spec fn opt_view(o: Option<&String>) -> Option<Seq<char>> {
    match o {
        Some(s) => Some(s@),
        None => None,
    }
}

fn requested_allowed(requested: &String, allowed: &[String]) -> (r: Json)
    ensures
        r is Object,
{
    let mut o = Json::object();
    o.insert(String::from_str("requested"), Json::Str(requested.clone()));
    o.insert(String::from_str("allowed"), Json::string_array(allowed));
    o
}

fn permission_artifact(required: &[String], missing: &[String], allowed: &[String]) -> (r: Json)
    ensures
        r is Object,
{
    let mut o = Json::object();
    o.insert(String::from_str("required"), Json::string_array(required));
    o.insert(String::from_str("missing"), Json::string_array(missing));
    o.insert(String::from_str("allowed"), Json::string_array(allowed));
    o
}

impl TenantPolicy {
    /// Checks an action against the action, adapter and permission
    /// allowlists. Every failed check contributes its reason code.
    pub fn verify_action(
        &self,
        action_name: &String,
        adapter: Option<&String>,
        required_permissions: &[String],
    ) -> (r: VerificationResult)
        ensures
            strs(r.reasons@) == tenant_policy_reasons(*self, action_name@, opt_view(adapter), strs(required_permissions@)),
            r.allowed == (r.reasons@.len() == 0),
            r.allowed ==> r.artifacts is Null,
            !r.allowed ==> r.artifacts is Object,
    {
        let mut reasons: Vec<String> = Vec::new();
        let mut artifacts = Json::object();
        let ghost mut expected: Seq<Seq<char>> = seq![];

        if !allowlisted(&self.allowed_actions, action_name) {
            reasons.push(String::from_str("action_not_allowed"));
            artifacts.insert(String::from_str("action"), requested_allowed(action_name, &self.allowed_actions));
        }
        proof {
            expected = reason_if(!allowlisted_spec(strs(self.allowed_actions@), action_name@), "action_not_allowed"@);
            assert(strs(reasons@) =~= expected);
        }

        if let Some(adapter) = adapter {
            if !allowlisted(&self.allowed_adapters, adapter) {
                reasons.push(String::from_str("adapter_not_allowed"));
                artifacts.insert(String::from_str("adapter"), requested_allowed(adapter, &self.allowed_adapters));
            }
        }
        proof {
            expected = expected + reason_if(adapter_denied(strs(self.allowed_adapters@), opt_view(adapter)), "adapter_not_allowed"@);
            assert(strs(reasons@) =~= expected);
        }

        if required_permissions.len() > 0 {
            let missing = missing_permissions(required_permissions, &self.allowed_permissions);
            if missing.len() > 0 {
                reasons.push(String::from_str("permission_denied"));
                artifacts.insert(String::from_str("permissions"),
                    permission_artifact(required_permissions, &missing, &self.allowed_permissions));
            }
        } else {
            assert(strs(required_permissions@).len() == 0);
        }
        proof {
            expected = expected + reason_if(missing_from(strs(required_permissions@), strs(self.allowed_permissions@)).len() > 0, "permission_denied"@);
            assert(strs(reasons@) =~= expected);
        }

        if reasons.len() == 0 {
            return VerificationResult::allow();
        }
        VerificationResult { allowed: false, reasons, artifacts }
    }
}

/// Agent-scoped permission and message grants. The tenant policy stays the
/// upper bound; this profile narrows what one agent holds.
#[derive(Clone, Debug)]
pub struct AgentIsolationPolicy {
    pub allowed_permissions: Vec<String>,
    pub allowed_message_schemas: Vec<String>,
    pub allowed_message_recipients: Vec<AgentId>,
}

pub open spec fn agent_permission_reasons(p: AgentIsolationPolicy, required: Seq<Seq<char>>) -> Seq<Seq<char>> {
    reason_if(missing_from(required, strs(p.allowed_permissions@)).len() > 0, "agent_permission_denied"@)
}

pub open spec fn message_reasons(p: AgentIsolationPolicy, target: AgentId, schema: Seq<char>) -> Seq<Seq<char>> {
    reason_if(!allowlisted_spec(strs(p.allowed_message_schemas@), schema), "message_schema_not_allowed"@)
    + reason_if(!p.allowed_message_recipients@.contains(target), "message_recipient_not_allowed"@)
}

/// A message to an agent off the policy's recipient list is refused with
/// `message_recipient_not_allowed`, whatever its schema; a listed recipient
/// is never refused for that reason.
pub proof fn law_unlisted_recipient_refused(p: AgentIsolationPolicy, target: AgentId, schema: Seq<char>)
    ensures
        !p.allowed_message_recipients@.contains(target)
            ==> message_reasons(p, target, schema).len() > 0
                && message_reasons(p, target, schema).contains("message_recipient_not_allowed"@),
        p.allowed_message_recipients@.contains(target)
            ==> !message_reasons(p, target, schema).contains("message_recipient_not_allowed"@),
{
    reveal_strlit("message_schema_not_allowed");
    reveal_strlit("message_recipient_not_allowed");
    let a = reason_if(!allowlisted_spec(strs(p.allowed_message_schemas@), schema), "message_schema_not_allowed"@);
    let b = reason_if(!p.allowed_message_recipients@.contains(target), "message_recipient_not_allowed"@);
    assert(message_reasons(p, target, schema) == a + b);
    if !p.allowed_message_recipients@.contains(target) {
        assert(b == seq!["message_recipient_not_allowed"@]);
        assert((a + b)[a.len() as int] == "message_recipient_not_allowed"@);
    } else {
        assert(b.len() == 0);
        assert(a + b =~= a);
        if a.len() > 0 {
            assert(a == seq!["message_schema_not_allowed"@]);
            assert("message_schema_not_allowed"@[8] != "message_recipient_not_allowed"@[8]);
        }
    }
}

fn agent_ledger_context(tenant_id: &TenantId, agent_id: &AgentId) -> (r: Json)
    ensures
        r is Object,
{
    let mut o = Json::object();
    o.insert(String::from_str("source"), Json::Str(String::from_str(AGENT_ISOLATION_LEDGER_SOURCE)));
    o.insert(String::from_str("tenant_id"), Json::Str(uuid_string(tenant_id.value)));
    o.insert(String::from_str("agent_id"), Json::Str(uuid_string(agent_id.value)));
    o
}

fn contains_agent(list: &Vec<AgentId>, agent: &AgentId) -> (r: bool)
    ensures
        r == list@.contains(*agent),
{
    let mut i: usize = 0;
    while i < list.len()
        invariant
            i <= list@.len(),
            forall|j: int| 0 <= j < i ==> #[trigger] list@[j] != *agent,
        decreases list@.len() - i,
    {
        if list[i] == *agent {
            assert(list@[i as int] == *agent);
            return true;
        }
        i = i + 1;
    }
    false
}

impl AgentIsolationPolicy {
    /// An empty profile: no permissions, schemas or recipients.
    pub fn empty() -> (r: AgentIsolationPolicy)
        ensures
            r.allowed_permissions@.len() == 0,
            r.allowed_message_schemas@.len() == 0,
            r.allowed_message_recipients@.len() == 0,
    {
        AgentIsolationPolicy {
            allowed_permissions: Vec::new(),
            allowed_message_schemas: Vec::new(),
            allowed_message_recipients: Vec::new(),
        }
    }

    /// Checks that every required permission is granted to this agent.
    pub fn verify_action_permissions(
        &self,
        tenant_id: &TenantId,
        agent_id: &AgentId,
        required_permissions: &[String],
    ) -> (r: VerificationResult)
        ensures
            strs(r.reasons@) == agent_permission_reasons(*self, strs(required_permissions@)),
            r.allowed == (r.reasons@.len() == 0),
            !r.allowed ==> r.artifacts is Object,
    {
        if required_permissions.len() == 0 {
            assert(strs(required_permissions@).len() == 0);
            return VerificationResult::allow();
        }
        let missing = missing_permissions(required_permissions, &self.allowed_permissions);
        if missing.len() == 0 {
            return VerificationResult::allow();
        }
        let mut reasons: Vec<String> = Vec::new();
        reasons.push(String::from_str("agent_permission_denied"));
        assert(strs(reasons@) =~= seq!["agent_permission_denied"@]);
        let mut artifacts = Json::object();
        artifacts.insert(String::from_str("context"), agent_ledger_context(tenant_id, agent_id));
        artifacts.insert(String::from_str("permissions"),
            permission_artifact(required_permissions, &missing, &self.allowed_permissions));
        VerificationResult { allowed: false, reasons, artifacts }
    }

    /// Checks that this agent may send `schema` to `target_agent_id`.
    pub fn verify_message(
        &self,
        source_agent_id: &AgentId,
        target_agent_id: &AgentId,
        schema: &String,
    ) -> (r: VerificationResult)
        ensures
            strs(r.reasons@) == message_reasons(*self, *target_agent_id, schema@),
            r.allowed == (r.reasons@.len() == 0),
            !r.allowed ==> r.artifacts is Object,
            // A recipient off the policy's list is refused, with its own reason.
            !self.allowed_message_recipients@.contains(*target_agent_id)
                ==> !r.allowed && strs(r.reasons@).contains("message_recipient_not_allowed"@),
            self.allowed_message_recipients@.contains(*target_agent_id)
                ==> !strs(r.reasons@).contains("message_recipient_not_allowed"@),
    {
        let mut reasons: Vec<String> = Vec::new();
        let mut artifacts = Json::object();
        let ghost mut expected: Seq<Seq<char>> = seq![];
        if !allowlisted(&self.allowed_message_schemas, schema) {
            reasons.push(String::from_str("message_schema_not_allowed"));
            artifacts.insert(String::from_str("schema"), requested_allowed(schema, &self.allowed_message_schemas));
        }
        proof {
            expected = reason_if(!allowlisted_spec(strs(self.allowed_message_schemas@), schema@), "message_schema_not_allowed"@);
            assert(strs(reasons@) =~= expected);
        }
        if !contains_agent(&self.allowed_message_recipients, target_agent_id) {
            reasons.push(String::from_str("message_recipient_not_allowed"));
            let mut o = Json::object();
            o.insert(String::from_str("requested"), Json::Str(uuid_string(target_agent_id.value)));
            artifacts.insert(String::from_str("recipient"), o);
        }
        proof {
            expected = expected + reason_if(!self.allowed_message_recipients@.contains(*target_agent_id), "message_recipient_not_allowed"@);
            assert(strs(reasons@) =~= expected);
        }
        proof {
            law_unlisted_recipient_refused(*self, *target_agent_id, schema@);
        }
        if reasons.len() == 0 {
            return VerificationResult::allow();
        }
        let mut context = Json::object();
        context.insert(String::from_str("source"), Json::Str(String::from_str(AGENT_ISOLATION_LEDGER_SOURCE)));
        context.insert(String::from_str("agent_id"), Json::Str(uuid_string(source_agent_id.value)));
        context.insert(String::from_str("target_agent_id"), Json::Str(uuid_string(target_agent_id.value)));
        context.insert(String::from_str("schema"), Json::Str(schema.clone()));
        artifacts.insert(String::from_str("context"), context);
        VerificationResult { allowed: false, reasons, artifacts }
    }
}

/// Denial returned when an agent without an isolation profile asks for
/// permissions.
fn missing_agent_policy(tenant_id: &TenantId, agent_id: &AgentId) -> (r: VerificationResult)
    ensures
        !r.allowed,
        strs(r.reasons@) == seq!["agent_isolation_profile_missing"@],
        r.artifacts is Object,
{
    let mut reasons: Vec<String> = Vec::new();
    reasons.push(String::from_str("agent_isolation_profile_missing"));
    assert(strs(reasons@) =~= seq!["agent_isolation_profile_missing"@]);
    let mut artifacts = Json::object();
    artifacts.insert(String::from_str("context"), agent_ledger_context(tenant_id, agent_id));
    VerificationResult { allowed: false, reasons, artifacts }
}

/// Appends copies of `src` to `dst`.
pub fn append_strings(dst: &mut Vec<String>, src: &Vec<String>)
    ensures
        strs(final(dst)@) == strs(old(dst)@) + strs(src@),
{
    let ghost first = strs(dst@);
    let mut i: usize = 0;
    while i < src.len()
        invariant
            i <= src@.len(),
            strs(dst@) == first + strs(src@).take(i as int),
        decreases src@.len() - i,
    {
        let x = src[i].clone();
        assert(x@ == src@[i as int]@);
        let ghost before = dst@;
        dst.push(x);
        assert(dst@ == before.push(x));
        assert(strs(before) == first + strs(src@).take(i as int));
        assert(strs(before).len() == first.len() + i);
        assert(strs(dst@).len() == first.len() + i + 1);
        assert forall|j: int| 0 <= j < first.len() + i + 1 implies #[trigger] strs(dst@)[j] == (first + strs(src@).take(i as int + 1))[j] by {
            if j < first.len() + i {
                assert(strs(dst@)[j] == dst@[j]@);
                assert(dst@[j] == before[j]);
                assert(strs(before)[j] == before[j]@);
                assert(strs(before)[j] == (first + strs(src@).take(i as int))[j]);
                if j < first.len() {
                } else {
                    assert((first + strs(src@).take(i as int))[j] == strs(src@).take(i as int)[j - first.len()]);
                    assert((first + strs(src@).take(i as int + 1))[j] == strs(src@).take(i as int + 1)[j - first.len()]);
                }
            } else {
                assert(strs(dst@)[j] == x@);
                assert((first + strs(src@).take(i as int + 1))[j] == strs(src@)[i as int]);
            }
        }
        assert(strs(dst@) =~= first + strs(src@).take(i as int + 1));
        i = i + 1;
    }
    assert(strs(src@).take(src@.len() as int) =~= strs(src@));
}

/// Reasons of a combined check: the failed tenant reasons, then the failed
/// agent reasons.
pub open spec fn combined_reasons(t: VerificationResult, a: VerificationResult) -> Seq<Seq<char>> {
    (if t.allowed { seq![] } else { strs(t.reasons@) }) + (if a.allowed { seq![] } else { strs(a.reasons@) })
}

/// Combines a tenant-policy result with an agent-isolation result: allowed
/// only when both are.
pub fn combine_policy_results(tenant_result: VerificationResult, agent_result: VerificationResult) -> (r: VerificationResult)
    ensures
        r.allowed == (tenant_result.allowed && agent_result.allowed),
        strs(r.reasons@) == if r.allowed { seq![] } else { combined_reasons(tenant_result, agent_result) },
{
    if tenant_result.allowed && agent_result.allowed {
        return VerificationResult::allow();
    }
    let mut reasons: Vec<String> = Vec::new();
    let mut artifacts = Json::object();
    if !tenant_result.allowed {
        append_strings(&mut reasons, &tenant_result.reasons);
        if !tenant_result.artifacts.is_null() {
            artifacts.insert(String::from_str("tenant_policy"), tenant_result.artifacts);
        }
    }
    if !agent_result.allowed {
        append_strings(&mut reasons, &agent_result.reasons);
        if !agent_result.artifacts.is_null() {
            artifacts.insert(String::from_str(AGENT_ISOLATION_LEDGER_SOURCE), agent_result.artifacts);
        }
    }
    assert(strs(reasons@) =~= combined_reasons(tenant_result, agent_result));
    VerificationResult { allowed: false, reasons, artifacts }
}

/// Runtime configuration of one agent instance.
#[derive(Clone, Debug)]
pub struct AgentRuntimeConfig {
    pub label: Option<String>,
    pub metadata: Vec<(String, String)>,
    pub isolation: AgentIsolationPolicy,
}

impl AgentRuntimeConfig {
    /// No label, no metadata and an empty isolation profile.
    pub fn empty() -> (r: AgentRuntimeConfig)
        ensures
            r.label is None,
            r.metadata@.len() == 0,
            r.isolation.allowed_permissions@.len() == 0,
            r.isolation.allowed_message_schemas@.len() == 0,
            r.isolation.allowed_message_recipients@.len() == 0,
    {
        AgentRuntimeConfig { label: None, metadata: Vec::new(), isolation: AgentIsolationPolicy::empty() }
    }

    /// Sets a metadata entry: the first entry with that key takes the new
    /// value in place, otherwise the entry is appended.
    pub fn set_metadata(&mut self, key: String, value: String)
        ensures
            metadata_updated(old(self).metadata@, key, value, final(self).metadata@),
            final(self).label == old(self).label,
            final(self).isolation == old(self).isolation,
    {
        let mut i: usize = 0;
        while i < self.metadata.len()
            invariant
                i <= self.metadata@.len(),
                self.metadata@ == old(self).metadata@,
                self.label == old(self).label,
                self.isolation == old(self).isolation,
                forall|j: int| 0 <= j < i ==> (#[trigger] self.metadata@[j]).0@ != key@,
            decreases self.metadata@.len() - i,
        {
            if self.metadata[i].0 == key {
                self.metadata.set(i, (key, value));
                return;
            }
            i = i + 1;
        }
        self.metadata.push((key, value));
    }
}

/// `after` is `before` with `key` set to `value`: the first entry with that
/// key replaced in place, or the pair appended when no entry has the key.
pub open spec fn metadata_updated(before: Seq<(String, String)>, key: String, value: String, after: Seq<(String, String)>) -> bool {
    ||| exists|i: int| 0 <= i < before.len() && (#[trigger] before[i]).0@ == key@
            && (forall|j: int| 0 <= j < i ==> (#[trigger] before[j]).0@ != key@)
            && after == before.update(i, (key, value))
    ||| (forall|j: int| 0 <= j < before.len() ==> (#[trigger] before[j]).0@ != key@) && after == before.push((key, value))
}

/// Agent execution context bound to a tenant.
#[derive(Clone, Debug)]
pub struct AgentContext {
    pub agent_id: AgentId,
    pub tenant_id: TenantId,
    pub interpreter_handles: Vec<String>,
    pub state_head: Option<StateNodeId>,
    pub config: AgentRuntimeConfig,
    pub delegated_authority: Option<DelegatedAuthority>,
}

/// Reasons for which a delegated authority denies an action: its name, its
/// adapter and its required permissions must each be granted. A context
/// without a delegated authority is not narrowed.
pub open spec fn delegated_reasons(
    authority: Option<DelegatedAuthority>,
    action_name: Seq<char>,
    adapter: Option<Seq<char>>,
    required: Seq<Seq<char>>,
) -> Seq<Seq<char>> {
    match authority {
        None => seq![],
        Some(a) => {
            let r1: Seq<Seq<char>> = if strs(a.allowed_actions@).contains(action_name) { seq![] } else { seq!["delegated_action_not_allowed"@] };
            let r2: Seq<Seq<char>> = match adapter {
                Some(ad) => if strs(a.allowed_adapters@).contains(ad) { seq![] } else { seq!["delegated_adapter_not_allowed"@] },
                None => seq![],
            };
            let r3: Seq<Seq<char>> = if forall|i: int| 0 <= i < required.len() ==> strs(a.allowed_permissions@).contains(#[trigger] required[i]) {
                seq![]
            } else {
                seq!["delegated_permission_not_allowed"@]
            };
            r1 + r2 + r3
        },
    }
}

impl AgentContext {
    pub fn new(agent_id: AgentId, tenant_id: TenantId, config: AgentRuntimeConfig) -> (r: AgentContext)
        ensures
            r.agent_id == agent_id,
            r.tenant_id == tenant_id,
            r.interpreter_handles@.len() == 0,
            r.state_head is None,
            r.config == config,
            r.delegated_authority is None,
    {
        AgentContext { agent_id, tenant_id, interpreter_handles: Vec::new(), state_head: None, config, delegated_authority: None }
    }

    /// Copies this context.
    pub fn duplicate(&self) -> (r: AgentContext)
        ensures
            r.agent_id == self.agent_id,
            r.tenant_id == self.tenant_id,
            r.state_head == self.state_head,
            strs(r.interpreter_handles@) == strs(self.interpreter_handles@),
            r.delegated_authority is Some == self.delegated_authority is Some,
            r.delegated_authority matches Some(a) ==> crate::delegation::same_authority(a, self.delegated_authority.unwrap()),
    {
        let delegated_authority = match &self.delegated_authority {
            Some(a) => Some(a.duplicate()),
            None => None,
        };
        AgentContext {
            agent_id: self.agent_id,
            tenant_id: self.tenant_id,
            interpreter_handles: copy_strings(&self.interpreter_handles),
            state_head: self.state_head,
            config: self.config.clone(),
            delegated_authority,
        }
    }

    /// Narrows this context to a delegated authority.
    pub fn set_delegated_authority(&mut self, authority: DelegatedAuthority)
        ensures
            *final(self) == (AgentContext { delegated_authority: Some(authority), ..*old(self) }),
    {
        self.delegated_authority = Some(authority);
    }

    /// This context narrowed to a delegated authority.
    pub fn with_delegated_authority(self, authority: DelegatedAuthority) -> (r: AgentContext)
        ensures
            r.delegated_authority == Some(authority),
            r.agent_id == self.agent_id,
            r.tenant_id == self.tenant_id,
            r.state_head == self.state_head,
            r.config == self.config,
    {
        let mut c = self;
        c.set_delegated_authority(authority);
        c
    }

    /// Checks an action against the delegated authority, if any.
    pub fn verify_delegated_action(&self, action: &crate::action::Action, adapter: Option<&String>) -> (r: VerificationResult)
        ensures
            strs(r.reasons@) == delegated_reasons(self.delegated_authority, action.name@, opt_view(adapter), strs(action.required_permissions@)),
            r.allowed == (r.reasons@.len() == 0),
    {
        match &self.delegated_authority {
            None => VerificationResult::allow(),
            Some(a) => {
                let mut reasons: Vec<String> = Vec::new();
                if !crate::delegation::contains_str(&a.allowed_actions, &action.name) {
                    reasons.push(String::from_str("delegated_action_not_allowed"));
                }
                let ghost r1 = strs(reasons@);
                match adapter {
                    Some(ad) => {
                        if !crate::delegation::contains_str(&a.allowed_adapters, ad) {
                            reasons.push(String::from_str("delegated_adapter_not_allowed"));
                        }
                    },
                    None => {},
                }
                let ghost r2 = strs(reasons@);
                if !crate::delegation::contained_in(&action.required_permissions, &a.allowed_permissions) {
                    reasons.push(String::from_str("delegated_permission_not_allowed"));
                }
                proof {
                    let d = delegated_reasons(self.delegated_authority, action.name@, opt_view(adapter), strs(action.required_permissions@));
                    assert(strs(reasons@) =~= d);
                }
                let allowed = reasons.len() == 0;
                VerificationResult { allowed, reasons, artifacts: Json::Null }
            },
        }
    }

    /// Attaches an interpreter handle to the agent.
    pub fn attach_interpreter(&mut self, handle: String)
        ensures
            strs(final(self).interpreter_handles@) == strs(old(self).interpreter_handles@).push(handle@),
            final(self).agent_id == old(self).agent_id,
            final(self).tenant_id == old(self).tenant_id,
            final(self).state_head == old(self).state_head,
    {
        let ghost h = handle@;
        self.interpreter_handles.push(handle);
        assert(strs(self.interpreter_handles@) =~= strs(old(self).interpreter_handles@).push(h));
    }

    /// Moves the agent's state head.
    pub fn set_state_head(&mut self, state_node_id: StateNodeId)
        ensures
            *final(self) == (AgentContext { state_head: Some(state_node_id), ..*old(self) }),
    {
        self.state_head = Some(state_node_id);
    }
}

/// Reasons for the agent part of a tenant check.
pub open spec fn agent_part_reasons(
    policy: Option<AgentIsolationPolicy>,
    required: Seq<Seq<char>>,
) -> Seq<Seq<char>> {
    if required.len() == 0 {
        seq![]
    } else {
        match policy {
            Some(p) => agent_permission_reasons(p, required),
            None => seq!["agent_isolation_profile_missing"@],
        }
    }
}

/// Tenant-scoped execution context with its quota ledger.
#[derive(Debug)]
pub struct TenantContext {
    pub tenant_id: TenantId,
    pub policy: TenantPolicy,
    pub quotas: QuotaPolicy,
    pub agent_policies: Vec<(AgentId, AgentIsolationPolicy)>,
    pub ledger: QuotaLedger,
}

impl TenantContext {
    /// The isolation profile registered for `a`.
    pub open spec fn agent_policy(&self, a: AgentId) -> Option<AgentIsolationPolicy> {
        assoc_get(self.agent_policies@, a)
    }

    pub fn new(tenant_id: TenantId, policy: TenantPolicy, quotas: QuotaPolicy) -> (r: TenantContext)
        ensures
            r.tenant_id == tenant_id,
            r.policy == policy,
            r.quotas == quotas,
            forall|a: AgentId| #[trigger] r.agent_policy(a) is None,
            r.ledger.tick_id == 0,
            forall|a: AgentId| #[trigger] r.ledger.usage_of(a) == zero_usage() && r.ledger.http_of(a) == 0,
    {
        let ctx = TenantContext { tenant_id, policy, quotas, agent_policies: Vec::new(), ledger: QuotaLedger::new() };
        proof {
            assert forall|a: AgentId| #[trigger] ctx.agent_policy(a) is None by {
                lemma_assoc_absent(ctx.agent_policies@, a);
            }
        }
        ctx
    }

    /// Registers or replaces the isolation profile of `agent_id`.
    pub fn register_agent_policy(&mut self, agent_id: AgentId, policy: AgentIsolationPolicy)
        ensures
            final(self).agent_policy(agent_id) == Some(policy),
            forall|b: AgentId| b != agent_id ==> #[trigger] final(self).agent_policy(b) == old(self).agent_policy(b),
            final(self).tenant_id == old(self).tenant_id,
            final(self).policy == old(self).policy,
            final(self).quotas == old(self).quotas,
            final(self).ledger == old(self).ledger,
    {
        let ghost before = self.agent_policies@;
        if let Some(i) = self.find_agent_policy(&agent_id) {
            let ghost p2 = policy;
            self.agent_policies.set(i, (agent_id, policy));
            proof {
                assert forall|b: AgentId| #[trigger] assoc_get(self.agent_policies@, b)
                    == if b == agent_id { Some(p2) } else { assoc_get(before, b) } by {
                    lemma_assoc_update(before, agent_id, i as int, p2, b);
                }
            }
            return;
        }
        let ghost p2 = policy;
        self.agent_policies.push((agent_id, policy));
        proof {
            assert forall|b: AgentId| #[trigger] assoc_get(self.agent_policies@, b)
                == if b == agent_id { Some(p2) } else { assoc_get(before, b) } by {
                lemma_assoc_push(before, agent_id, p2, b);
            }
        }
    }

    /// Registers an agent context's isolation profile.
    pub fn register_agent_context(&mut self, agent: &AgentContext)
        ensures
            final(self).agent_policy(agent.agent_id) matches Some(p) && same_profile(p, agent.config.isolation),
            forall|b: AgentId| b != agent.agent_id ==> #[trigger] final(self).agent_policy(b) == old(self).agent_policy(b),
            final(self).ledger == old(self).ledger,
    {
        self.register_agent_policy(agent.agent_id, agent.config.isolation.clone_profile());
    }

    /// Resets the per-tick counters.
    pub fn begin_tick(&mut self, tick_id: u64, now: Timestamp)
        ensures
            final(self).ledger.tick_id == tick_id,
            final(self).ledger.tick_usage == zero_usage(),
            forall|a: AgentId| #[trigger] final(self).ledger.usage_of(a) == zero_usage(),
            final(self).tenant_id == old(self).tenant_id,
            final(self).policy == old(self).policy,
            final(self).quotas == old(self).quotas,
            final(self).agent_policies == old(self).agent_policies,
    {
        self.ledger.begin_tick(tick_id, now);
    }

    /// Checks and charges `usage` for `agent_id` against this tenant's quotas.
    pub fn record_usage(&mut self, agent_id: &AgentId, usage: QuotaUsage, now: Timestamp) -> (r: VerificationResult)
        ensures
            strs(r.reasons@) == quota_reasons(old(self).quotas, old(self).ledger.usage_of(*agent_id),
                old(self).ledger.http_at(*agent_id, now), usage),
            r.allowed == (r.reasons@.len() == 0),
            r.allowed ==> final(self).ledger.usage_of(*agent_id) == accumulated(old(self).ledger.usage_of(*agent_id), usage),
            !r.allowed ==> final(self).ledger.usage_of(*agent_id) == old(self).ledger.usage_of(*agent_id),
            forall|b: AgentId| b != *agent_id ==> #[trigger] final(self).ledger.usage_of(b) == old(self).ledger.usage_of(b),
            final(self).tenant_id == old(self).tenant_id,
            final(self).policy == old(self).policy,
            final(self).quotas == old(self).quotas,
            final(self).agent_policies == old(self).agent_policies,
    {
        let quotas = self.quotas;
        let tenant_id = self.tenant_id;
        self.ledger.record_usage(&quotas, &tenant_id, agent_id, usage, now)
    }

    fn find_agent_policy(&self, agent_id: &AgentId) -> (r: Option<usize>)
        ensures
            r matches Some(i) ==> is_last_index(self.agent_policies@, *agent_id, i as int),
            r is None ==> assoc_absent(self.agent_policies@, *agent_id),
    {
        let mut i: usize = self.agent_policies.len();
        while i > 0
            invariant
                i <= self.agent_policies@.len(),
                forall|j: int| i <= j < self.agent_policies@.len() ==> #[trigger] self.agent_policies@[j].0 != *agent_id,
            decreases i,
        {
            i = i - 1;
            if self.agent_policies[i].0 == *agent_id {
                return Some(i);
            }
        }
        None
    }

    /// Checks an action against the tenant policy and, when permissions are
    /// required, against the agent's own isolation profile.
    pub fn verify_action(
        &self,
        agent_id: &AgentId,
        action_name: &String,
        adapter: Option<&String>,
        required_permissions: &[String],
    ) -> (r: VerificationResult)
        ensures
            strs(r.reasons@) == tenant_policy_reasons(self.policy, action_name@, opt_view(adapter), strs(required_permissions@))
                + agent_part_reasons(self.agent_policy(*agent_id), strs(required_permissions@)),
            r.allowed == (r.reasons@.len() == 0),
    {
        let tenant_result = self.policy.verify_action(action_name, adapter, required_permissions);
        let agent_result = if required_permissions.len() == 0 {
            VerificationResult::allow()
        } else {
            match self.find_agent_policy(agent_id) {
                Some(i) => {
                    proof { lemma_assoc_last(self.agent_policies@, *agent_id, i as int); }
                    self.agent_policies[i].1.verify_action_permissions(&self.tenant_id, agent_id, required_permissions)
                },
                None => {
                    proof { lemma_assoc_absent(self.agent_policies@, *agent_id); }
                    missing_agent_policy(&self.tenant_id, agent_id)
                },
            }
        };
        let ghost t = tenant_result;
        let ghost a = agent_result;
        let r = combine_policy_results(tenant_result, agent_result);
        proof {
            if r.allowed {
                assert(strs(t.reasons@) =~= seq![]);
                assert(strs(a.reasons@) =~= seq![]);
            }
            assert(strs(r.reasons@) =~= tenant_policy_reasons(self.policy, action_name@, opt_view(adapter), strs(required_permissions@))
                + agent_part_reasons(self.agent_policy(*agent_id), strs(required_permissions@)));
        }
        r
    }

    /// The current tick tracked by the ledger.
    pub fn current_tick(&self) -> (r: u64)
        ensures
            r == self.ledger.tick_id,
    {
        self.ledger.tick_id
    }

    /// The usage totals of the current tick.
    pub fn tick_usage(&self) -> (r: QuotaUsage)
        ensures
            r == self.ledger.tick_usage,
    {
        self.ledger.tick_usage
    }
}

/// Two profiles grant the same permissions, schemas and recipients.
pub open spec fn same_profile(a: AgentIsolationPolicy, b: AgentIsolationPolicy) -> bool {
    &&& strs(a.allowed_permissions@) == strs(b.allowed_permissions@)
    &&& strs(a.allowed_message_schemas@) == strs(b.allowed_message_schemas@)
    &&& a.allowed_message_recipients@ == b.allowed_message_recipients@
}

/// Copies a list of agent identifiers.
pub fn copy_agent_ids(v: &Vec<AgentId>) -> (r: Vec<AgentId>)
    ensures
        r@ == v@,
{
    let mut out: Vec<AgentId> = Vec::new();
    let mut i: usize = 0;
    while i < v.len()
        invariant
            i <= v@.len(),
            out@ == v@.take(i as int),
        decreases v@.len() - i,
    {
        out.push(v[i]);
        assert(out@ =~= v@.take(i as int + 1));
        i = i + 1;
    }
    assert(v@.take(v@.len() as int) =~= v@);
    out
}

impl AgentIsolationPolicy {
    /// Copies this profile.
    pub fn clone_profile(&self) -> (r: AgentIsolationPolicy)
        ensures
            same_profile(r, *self),
    {
        AgentIsolationPolicy {
            allowed_permissions: copy_strings(&self.allowed_permissions),
            allowed_message_schemas: copy_strings(&self.allowed_message_schemas),
            allowed_message_recipients: copy_agent_ids(&self.allowed_message_recipients),
        }
    }
}

/// Registry of tenant contexts keyed by tenant identifier.
#[derive(Debug)]
pub struct TenantRegistry {
    pub tenants: Vec<(TenantId, TenantContext)>,
}

impl TenantRegistry {
    /// The context registered for `id`.
    pub open spec fn tenant_of(&self, id: TenantId) -> Option<TenantContext> {
        assoc_get(self.tenants@, id)
    }

    /// An empty registry.
    pub fn new() -> (r: TenantRegistry)
        ensures
            forall|id: TenantId| #[trigger] r.tenant_of(id) is None,
    {
        let r = TenantRegistry { tenants: Vec::new() };
        proof {
            assert forall|id: TenantId| #[trigger] r.tenant_of(id) is None by {
                lemma_assoc_absent(r.tenants@, id);
            }
        }
        r
    }

    fn find(&self, id: &TenantId) -> (r: Option<usize>)
        ensures
            r matches Some(i) ==> is_last_index(self.tenants@, *id, i as int),
            r is None ==> assoc_absent(self.tenants@, *id),
    {
        let mut i: usize = self.tenants.len();
        while i > 0
            invariant
                i <= self.tenants@.len(),
                forall|j: int| i <= j < self.tenants@.len() ==> #[trigger] self.tenants@[j].0 != *id,
            decreases i,
        {
            i = i - 1;
            if self.tenants[i].0 == *id {
                return Some(i);
            }
        }
        None
    }

    /// Inserts or replaces the context of `tenant.tenant_id`.
    pub fn insert(&mut self, tenant: TenantContext)
        ensures
            final(self).tenant_of(tenant.tenant_id) == Some(tenant),
            forall|id: TenantId| id != tenant.tenant_id ==> #[trigger] final(self).tenant_of(id) == old(self).tenant_of(id),
    {
        let id = tenant.tenant_id;
        let ghost before = self.tenants@;
        let ghost t = tenant;
        match self.find(&id) {
            Some(i) => {
                self.tenants.set(i, (id, tenant));
                proof {
                    assert forall|q: TenantId| #[trigger] assoc_get(self.tenants@, q)
                        == if q == id { Some(t) } else { assoc_get(before, q) } by {
                        lemma_assoc_update(before, id, i as int, t, q);
                    }
                }
            },
            None => {
                self.tenants.push((id, tenant));
                proof {
                    assert forall|q: TenantId| #[trigger] assoc_get(self.tenants@, q)
                        == if q == id { Some(t) } else { assoc_get(before, q) } by {
                        lemma_assoc_push(before, id, t, q);
                    }
                }
            },
        }
    }

    /// The context registered for `id`, if any.
    pub fn tenant(&self, id: &TenantId) -> (r: Option<&TenantContext>)
        ensures
            r matches Some(t) ==> self.tenant_of(*id) == Some(*t),
            r is None ==> self.tenant_of(*id) is None,
    {
        match self.find(id) {
            Some(i) => {
                proof { lemma_assoc_last(self.tenants@, *id, i as int); }
                Some(&self.tenants[i].1)
            },
            None => {
                proof { lemma_assoc_absent(self.tenants@, *id); }
                None
            },
        }
    }

    /// Runs `f` on the context registered for `tenant_id`; `None` when no
    /// tenant has that id.
    pub fn with_tenant<R, F: FnOnce(&TenantContext) -> R>(&self, tenant_id: &TenantId, f: F) -> (r: Option<R>)
        requires
            forall|t: &TenantContext| self.tenant_of(*tenant_id) == Some(*t) ==> #[trigger] f.requires((t,)),
        ensures
            self.tenant_of(*tenant_id) is None ==> r is None,
            self.tenant_of(*tenant_id) matches Some(t) ==> (r matches Some(v) && f.ensures((&t,), v)),
    {
        match self.tenant(tenant_id) {
            Some(t) => Some(f(t)),
            None => None,
        }
    }

    /// Starts a new tick for every tenant: each ledger's per-tick counters are
    /// reset; the set of tenants and their policies stay as they are.
    pub fn begin_tick(&mut self, tick_id: u64, now: Timestamp)
        ensures
            final(self).tenants@.len() == old(self).tenants@.len(),
            forall|i: int| 0 <= i < final(self).tenants@.len() ==> {
                let t = #[trigger] final(self).tenants@[i];
                let o = old(self).tenants@[i];
                &&& t.0 == o.0
                &&& t.1.tenant_id == o.1.tenant_id
                &&& t.1.policy == o.1.policy
                &&& t.1.quotas == o.1.quotas
                &&& t.1.agent_policies == o.1.agent_policies
                &&& t.1.ledger.tick_id == tick_id
                &&& t.1.ledger.tick_usage == zero_usage()
                &&& forall|a: AgentId| #[trigger] t.1.ledger.usage_of(a) == zero_usage()
            },
            forall|id: TenantId| (#[trigger] final(self).tenant_of(id) is Some) == (old(self).tenant_of(id) is Some),
    {
        let ghost before = self.tenants@;
        let mut i: usize = 0;
        while i < self.tenants.len()
            invariant
                i <= self.tenants@.len(),
                self.tenants@.len() == before.len(),
                forall|j: int| i <= j < before.len() ==> #[trigger] self.tenants@[j] == before[j],
                forall|j: int| 0 <= j < i ==> {
                    let t = #[trigger] self.tenants@[j];
                    let o = before[j];
                    &&& t.0 == o.0
                    &&& t.1.tenant_id == o.1.tenant_id
                    &&& t.1.policy == o.1.policy
                    &&& t.1.quotas == o.1.quotas
                    &&& t.1.agent_policies == o.1.agent_policies
                    &&& t.1.ledger.tick_id == tick_id
                    &&& t.1.ledger.tick_usage == zero_usage()
                    &&& forall|a: AgentId| #[trigger] t.1.ledger.usage_of(a) == zero_usage()
                },
            decreases before.len() - i,
        {
            self.tenants[i].1.begin_tick(tick_id, now);
            i = i + 1;
        }
        proof {
            assert forall|id: TenantId| (#[trigger] self.tenant_of(id) is Some) == (crate::assoc::assoc_get(before, id) is Some) by {
                crate::assoc::lemma_assoc_same_keys(self.tenants@, before, id);
            }
        }
    }

    /// Checks an action against the tenant's policies; an unknown tenant is
    /// denied with `tenant_not_found`.
    pub fn check_policy(&self, tenant_id: &TenantId, agent_id: &AgentId, action: &crate::action::Action, adapter: Option<&String>) -> (r: VerificationResult)
        ensures
            match self.tenant_of(*tenant_id) {
                Some(t) => strs(r.reasons@) == tenant_policy_reasons(t.policy, action.name@, opt_view(adapter), strs(action.required_permissions@))
                    + agent_part_reasons(t.agent_policy(*agent_id), strs(action.required_permissions@))
                    && r.allowed == (r.reasons@.len() == 0),
                None => !r.allowed && strs(r.reasons@) == seq!["tenant_not_found"@],
            },
    {
        match self.tenant(tenant_id) {
            Some(t) => t.verify_action(agent_id, &action.name, adapter, &action.required_permissions),
            None => VerificationResult::deny("tenant_not_found"),
        }
    }

    /// Checks and charges quota for an agent of a tenant at `now`; an unknown
    /// tenant is denied with `tenant_not_found` and nothing is charged.
    pub fn charge_quota(&mut self, tenant_id: &TenantId, agent_id: &AgentId, usage: QuotaUsage, now: Timestamp) -> (r: VerificationResult)
        ensures
            match old(self).tenant_of(*tenant_id) {
                Some(t) => strs(r.reasons@) == quota_reasons(t.quotas, t.ledger.usage_of(*agent_id), t.ledger.http_at(*agent_id, now), usage)
                    && r.allowed == (r.reasons@.len() == 0)
                    && (final(self).tenant_of(*tenant_id) matches Some(t2) && (r.allowed
                        ==> t2.ledger.usage_of(*agent_id) == accumulated(t.ledger.usage_of(*agent_id), usage))
                        && (!r.allowed ==> t2.ledger.usage_of(*agent_id) == t.ledger.usage_of(*agent_id))
                        && (forall|b: AgentId| b != *agent_id ==> #[trigger] t2.ledger.usage_of(b) == t.ledger.usage_of(b))),
                None => !r.allowed && strs(r.reasons@) == seq!["tenant_not_found"@] && final(self).tenants@ == old(self).tenants@,
            },
            forall|id: TenantId| id != *tenant_id ==> #[trigger] final(self).tenant_of(id) == old(self).tenant_of(id),
    {
        let ghost before = self.tenants@;
        match self.find(tenant_id) {
            Some(i) => {
                proof { lemma_assoc_last(before, *tenant_id, i as int); }
                let r = self.tenants[i].1.record_usage(agent_id, usage, now);
                proof {
                    let t2 = self.tenants@[i as int].1;
                    assert(self.tenants@ == before.update(i as int, (*tenant_id, t2)));
                    assert forall|q: TenantId| #[trigger] assoc_get(self.tenants@, q)
                        == if q == *tenant_id { Some(t2) } else { assoc_get(before, q) } by {
                        lemma_assoc_update(before, *tenant_id, i as int, t2, q);
                    }
                }
                r
            },
            None => {
                proof { lemma_assoc_absent(before, *tenant_id); }
                VerificationResult::deny("tenant_not_found")
            },
        }
    }
}

impl crate::gateway::TenantAccess for TenantRegistry {
    fn verify_policy(&self, tenant_id: &TenantId, agent_id: &AgentId, action: &crate::action::Action, adapter: Option<&String>) -> (r: VerificationResult)
        ensures
            match self.tenant_of(*tenant_id) {
                Some(t) => strs(r.reasons@) == tenant_policy_reasons(t.policy, action.name@, opt_view(adapter), strs(action.required_permissions@))
                    + agent_part_reasons(t.agent_policy(*agent_id), strs(action.required_permissions@))
                    && r.allowed == (r.reasons@.len() == 0),
                None => !r.allowed && strs(r.reasons@) == seq!["tenant_not_found"@],
            },
    {
        self.check_policy(tenant_id, agent_id, action, adapter)
    }

    /// Charges the tenant's ledger at the current time (which decides only
    /// where the HTTP request window stands).
    fn verify_quota(&mut self, tenant_id: &TenantId, agent_id: &AgentId, usage: QuotaUsage) -> (r: VerificationResult)
        ensures
            match old(self).tenant_of(*tenant_id) {
                Some(t) => exists|now: Timestamp| #[trigger] quota_reasons(t.quotas, t.ledger.usage_of(*agent_id), t.ledger.http_at(*agent_id, now), usage)
                        == strs(r.reasons@)
                    && r.allowed == (r.reasons@.len() == 0)
                    && (final(self).tenant_of(*tenant_id) matches Some(t2) && (r.allowed
                        ==> t2.ledger.usage_of(*agent_id) == accumulated(t.ledger.usage_of(*agent_id), usage))
                        && (!r.allowed ==> t2.ledger.usage_of(*agent_id) == t.ledger.usage_of(*agent_id))
                        && (forall|b: AgentId| b != *agent_id ==> #[trigger] t2.ledger.usage_of(b) == t.ledger.usage_of(b))),
                None => !r.allowed && strs(r.reasons@) == seq!["tenant_not_found"@],
            },
            forall|id: TenantId| id != *tenant_id ==> #[trigger] final(self).tenant_of(id) == old(self).tenant_of(id),
    {
        let now = crate::clock::now_utc();
        let r = self.charge_quota(tenant_id, agent_id, usage, now);
        proof {
            if let Some(t) = old(self).tenant_of(*tenant_id) {
                assert(quota_reasons(t.quotas, t.ledger.usage_of(*agent_id), t.ledger.http_at(*agent_id, now), usage) == strs(r.reasons@));
            }
        }
        r
    }
}

} // verus!
