//! Quota usage accounting: per-tick, per-agent budgets and a per-minute HTTP
//! request window. One agent's spending never counts against another agent.

use vstd::prelude::*;
use crate::assoc::{assoc_get, assoc_absent, is_last_index, lemma_assoc_absent, lemma_assoc_last, lemma_assoc_push, lemma_assoc_update};
use crate::clock::{Timestamp, Span, clamp_i128};
use crate::ids::{AgentId, TenantId};
use crate::json::Json;
use crate::verification::{VerificationResult, strs};

verus! {

/// Resource usage of one action or accumulated over a tick.
#[derive(Clone, Copy, Debug, PartialEq, Eq, Structural)]
pub struct QuotaUsage {
    pub actions: u32,
    pub action_duration_ms: u64,
    pub filesystem_read_bytes: u64,
    pub filesystem_write_bytes: u64,
    pub network_read_bytes: u64,
    pub network_write_bytes: u64,
    pub http_requests: u32,
}

pub open spec fn sat_add_u32(a: u32, b: u32) -> u32 {
    if a + b > u32::MAX { u32::MAX } else { (a + b) as u32 }
}

pub open spec fn sat_add_u64(a: u64, b: u64) -> u64 {
    if a + b > u64::MAX { u64::MAX } else { (a + b) as u64 }
}

pub open spec fn zero_usage() -> QuotaUsage {
    QuotaUsage {
        actions: 0,
        action_duration_ms: 0,
        filesystem_read_bytes: 0,
        filesystem_write_bytes: 0,
        network_read_bytes: 0,
        network_write_bytes: 0,
        http_requests: 0,
    }
}

/// Field-wise saturating sum of two usage records.
pub open spec fn accumulated(a: QuotaUsage, b: QuotaUsage) -> QuotaUsage {
    QuotaUsage {
        actions: sat_add_u32(a.actions, b.actions),
        action_duration_ms: sat_add_u64(a.action_duration_ms, b.action_duration_ms),
        filesystem_read_bytes: sat_add_u64(a.filesystem_read_bytes, b.filesystem_read_bytes),
        filesystem_write_bytes: sat_add_u64(a.filesystem_write_bytes, b.filesystem_write_bytes),
        network_read_bytes: sat_add_u64(a.network_read_bytes, b.network_read_bytes),
        network_write_bytes: sat_add_u64(a.network_write_bytes, b.network_write_bytes),
        http_requests: sat_add_u32(a.http_requests, b.http_requests),
    }
}

impl QuotaUsage {
    /// No usage at all.
    pub fn zero() -> (r: QuotaUsage)
        ensures
            r == zero_usage(),
    {
        QuotaUsage {
            actions: 0,
            action_duration_ms: 0,
            filesystem_read_bytes: 0,
            filesystem_write_bytes: 0,
            network_read_bytes: 0,
            network_write_bytes: 0,
            http_requests: 0,
        }
    }

    /// The usage of a single action and nothing else.
    pub fn single_action() -> (r: QuotaUsage)
        ensures
            r == (QuotaUsage { actions: 1, ..zero_usage() }),
    {
        QuotaUsage { actions: 1, ..QuotaUsage::zero() }
    }

    /// Adds `other` into this record, saturating each counter.
    pub fn accumulate(&mut self, other: QuotaUsage)
        ensures
            *final(self) == accumulated(*old(self), other),
    {
        self.actions = self.actions.saturating_add(other.actions);
        self.action_duration_ms = self.action_duration_ms.saturating_add(other.action_duration_ms);
        self.filesystem_read_bytes = self.filesystem_read_bytes.saturating_add(other.filesystem_read_bytes);
        self.filesystem_write_bytes = self.filesystem_write_bytes.saturating_add(other.filesystem_write_bytes);
        self.network_read_bytes = self.network_read_bytes.saturating_add(other.network_read_bytes);
        self.network_write_bytes = self.network_write_bytes.saturating_add(other.network_write_bytes);
        self.http_requests = self.http_requests.saturating_add(other.http_requests);
    }
}

impl Default for QuotaUsage {
    fn default() -> (r: QuotaUsage)
        ensures
            r == zero_usage(),
    {
        QuotaUsage::zero()
    }
}

/// Read/write byte caps for one adapter category.
#[derive(Clone, Copy, Debug, PartialEq, Eq, Structural)]
pub struct AdapterQuota {
    pub max_read_bytes: Option<u64>,
    pub max_write_bytes: Option<u64>,
}

/// Quota limits applied to each agent of a tenant.
#[derive(Clone, Copy, Debug, PartialEq, Eq, Structural)]
pub struct QuotaPolicy {
    pub max_actions_per_tick: Option<u32>,
    pub max_action_duration_ms: Option<u64>,
    pub filesystem: AdapterQuota,
    pub network: AdapterQuota,
    pub max_http_requests_per_minute: Option<u32>,
}

impl AdapterQuota {
    pub fn unlimited() -> (r: AdapterQuota)
        ensures
            r.max_read_bytes is None,
            r.max_write_bytes is None,
    {
        AdapterQuota { max_read_bytes: None, max_write_bytes: None }
    }
}

impl Default for AdapterQuota {
    fn default() -> (r: AdapterQuota)
        ensures
            r.max_read_bytes is None,
            r.max_write_bytes is None,
    {
        AdapterQuota::unlimited()
    }
}

impl QuotaPolicy {
    /// A policy without any limit.
    pub fn unlimited() -> (r: QuotaPolicy)
        ensures
            r.max_actions_per_tick is None,
            r.max_action_duration_ms is None,
            r.filesystem.max_read_bytes is None,
            r.filesystem.max_write_bytes is None,
            r.network.max_read_bytes is None,
            r.network.max_write_bytes is None,
            r.max_http_requests_per_minute is None,
    {
        QuotaPolicy {
            max_actions_per_tick: None,
            max_action_duration_ms: None,
            filesystem: AdapterQuota::unlimited(),
            network: AdapterQuota::unlimited(),
            max_http_requests_per_minute: None,
        }
    }
}

impl Default for QuotaPolicy {
    fn default() -> (r: QuotaPolicy)
        ensures
            r == QuotaPolicy::spec_unlimited(),
    {
        QuotaPolicy::unlimited()
    }
}

impl QuotaPolicy {
    pub open spec fn spec_unlimited() -> QuotaPolicy {
        QuotaPolicy {
            max_actions_per_tick: None,
            max_action_duration_ms: None,
            filesystem: AdapterQuota { max_read_bytes: None, max_write_bytes: None },
            network: AdapterQuota { max_read_bytes: None, max_write_bytes: None },
            max_http_requests_per_minute: None,
        }
    }
}

/// A limit is exceeded when it is set and `total` is above it.
pub open spec fn exceeds(limit: Option<u64>, total: int) -> bool {
    match limit {
        Some(l) => total > l,
        None => false,
    }
}

pub open spec fn exceeds32(limit: Option<u32>, total: int) -> bool {
    match limit {
        Some(l) => total > l,
        None => false,
    }
}

pub open spec fn reason_if(hit: bool, code: Seq<char>) -> Seq<Seq<char>> {
    if hit { seq![code] } else { seq![] }
}

/// Reason codes, in order, for recording `usage` on top of an agent's current
/// per-tick usage `cur` and current per-minute HTTP count `http`.
pub open spec fn quota_reasons(p: QuotaPolicy, cur: QuotaUsage, http: u32, usage: QuotaUsage) -> Seq<Seq<char>> {
    reason_if(exceeds(p.max_action_duration_ms, usage.action_duration_ms as int), "max_action_duration_ms"@)
    + reason_if(exceeds32(p.max_actions_per_tick, sat_add_u32(cur.actions, usage.actions) as int), "max_actions_per_tick"@)
    + reason_if(exceeds(p.filesystem.max_read_bytes, sat_add_u64(cur.filesystem_read_bytes, usage.filesystem_read_bytes) as int), "filesystem_read_bytes"@)
    + reason_if(exceeds(p.filesystem.max_write_bytes, sat_add_u64(cur.filesystem_write_bytes, usage.filesystem_write_bytes) as int), "filesystem_write_bytes"@)
    + reason_if(exceeds(p.network.max_read_bytes, sat_add_u64(cur.network_read_bytes, usage.network_read_bytes) as int), "network_read_bytes"@)
    + reason_if(exceeds(p.network.max_write_bytes, sat_add_u64(cur.network_write_bytes, usage.network_write_bytes) as int), "network_write_bytes"@)
    + reason_if(exceeds32(p.max_http_requests_per_minute, sat_add_u32(http, usage.http_requests) as int), "max_http_requests_per_minute"@)
}

/// Every set per-tick limit holds for `u`, and the per-minute HTTP limit holds
/// for `http`.
pub open spec fn within_limits(p: QuotaPolicy, u: QuotaUsage, http: u32) -> bool {
    &&& !exceeds32(p.max_actions_per_tick, u.actions as int)
    &&& !exceeds(p.filesystem.max_read_bytes, u.filesystem_read_bytes as int)
    &&& !exceeds(p.filesystem.max_write_bytes, u.filesystem_write_bytes as int)
    &&& !exceeds(p.network.max_read_bytes, u.network_read_bytes as int)
    &&& !exceeds(p.network.max_write_bytes, u.network_write_bytes as int)
    &&& !exceeds32(p.max_http_requests_per_minute, http as int)
}

/// Length of the HTTP request window.
pub open spec fn http_window_nanos() -> int {
    60_000_000_000
}

/// Per-tenant usage ledger.
#[derive(Debug)]
pub struct QuotaLedger {
    pub tick_id: u64,
    pub tick_started_at: Timestamp,
    pub tick_usage: QuotaUsage,
    pub per_agent_usage: Vec<(AgentId, QuotaUsage)>,
    pub http_window_start: Timestamp,
    pub per_agent_http_requests: Vec<(AgentId, u32)>,
}

impl QuotaLedger {
    /// Usage charged to `a` in the current tick.
    pub open spec fn usage_of(&self, a: AgentId) -> QuotaUsage {
        match assoc_get(self.per_agent_usage@, a) {
            Some(u) => u,
            None => zero_usage(),
        }
    }

    /// HTTP requests charged to `a` in the current window.
    pub open spec fn http_of(&self, a: AgentId) -> u32 {
        match assoc_get(self.per_agent_http_requests@, a) {
            Some(n) => n,
            None => 0,
        }
    }

    /// Whether recording at `now` starts a new HTTP window.
    pub open spec fn window_expires(&self, now: Timestamp) -> bool {
        clamp_i128(now.unix_nanos - self.http_window_start.unix_nanos) >= http_window_nanos()
    }

    /// HTTP requests charged to `a` once the window has been rolled for `now`.
    pub open spec fn http_at(&self, a: AgentId, now: Timestamp) -> u32 {
        if self.window_expires(now) { 0 } else { self.http_of(a) }
    }

    /// An empty ledger whose tick and window start at the Unix epoch.
    pub fn new() -> (r: QuotaLedger)
        ensures
            r.tick_id == 0,
            r.tick_started_at.unix_nanos == 0,
            r.tick_usage == zero_usage(),
            r.http_window_start.unix_nanos == 0,
            forall|a: AgentId| r.usage_of(a) == zero_usage() && r.http_of(a) == 0,
    {
        QuotaLedger {
            tick_id: 0,
            tick_started_at: Timestamp::unix_epoch(),
            tick_usage: QuotaUsage::zero(),
            per_agent_usage: Vec::new(),
            http_window_start: Timestamp::unix_epoch(),
            per_agent_http_requests: Vec::new(),
        }
    }

    /// Resets the per-tick counters of every agent for a new tick. The HTTP
    /// window is left as it is.
    pub fn begin_tick(&mut self, tick_id: u64, now: Timestamp)
        ensures
            final(self).tick_id == tick_id,
            final(self).tick_started_at == now,
            final(self).tick_usage == zero_usage(),
            forall|a: AgentId| #[trigger] final(self).usage_of(a) == zero_usage(),
            final(self).http_window_start == old(self).http_window_start,
            final(self).per_agent_http_requests@ == old(self).per_agent_http_requests@,
    {
        self.tick_id = tick_id;
        self.tick_started_at = now;
        self.tick_usage = QuotaUsage::zero();
        self.per_agent_usage = Vec::new();
    }

    fn roll_http_window(&mut self, now: Timestamp)
        ensures
            old(self).window_expires(now) ==> final(self).http_window_start == now
                && final(self).per_agent_http_requests@.len() == 0,
            !old(self).window_expires(now) ==> final(self).http_window_start == old(self).http_window_start
                && final(self).per_agent_http_requests@ == old(self).per_agent_http_requests@,
            final(self).tick_id == old(self).tick_id,
            final(self).tick_started_at == old(self).tick_started_at,
            final(self).tick_usage == old(self).tick_usage,
            final(self).per_agent_usage@ == old(self).per_agent_usage@,
    {
        let elapsed: Span = now.since(&self.http_window_start);
        if elapsed.nanos >= 60_000_000_000i128 {
            self.http_window_start = now;
            self.per_agent_http_requests = Vec::new();
        }
    }

    fn find_usage(&self, agent_id: &AgentId) -> (r: Option<usize>)
        ensures
            r matches Some(i) ==> is_last_index(self.per_agent_usage@, *agent_id, i as int),
            r is None ==> assoc_absent(self.per_agent_usage@, *agent_id),
    {
        let mut i: usize = self.per_agent_usage.len();
        while i > 0
            invariant
                i <= self.per_agent_usage@.len(),
                forall|j: int| i <= j < self.per_agent_usage@.len() ==> #[trigger] self.per_agent_usage@[j].0 != *agent_id,
            decreases i,
        {
            i = i - 1;
            if self.per_agent_usage[i].0 == *agent_id {
                return Some(i);
            }
        }
        None
    }

    fn find_http(&self, agent_id: &AgentId) -> (r: Option<usize>)
        ensures
            r matches Some(i) ==> is_last_index(self.per_agent_http_requests@, *agent_id, i as int),
            r is None ==> assoc_absent(self.per_agent_http_requests@, *agent_id),
    {
        let mut i: usize = self.per_agent_http_requests.len();
        while i > 0
            invariant
                i <= self.per_agent_http_requests@.len(),
                forall|j: int| i <= j < self.per_agent_http_requests@.len() ==> #[trigger] self.per_agent_http_requests@[j].0 != *agent_id,
            decreases i,
        {
            i = i - 1;
            if self.per_agent_http_requests[i].0 == *agent_id {
                return Some(i);
            }
        }
        None
    }

    fn current_usage(&self, agent_id: &AgentId) -> (r: QuotaUsage)
        ensures
            r == self.usage_of(*agent_id),
    {
        match self.find_usage(agent_id) {
            Some(i) => {
                proof { lemma_assoc_last(self.per_agent_usage@, *agent_id, i as int); }
                self.per_agent_usage[i].1
            },
            None => {
                proof { lemma_assoc_absent(self.per_agent_usage@, *agent_id); }
                QuotaUsage::zero()
            },
        }
    }

    fn current_http(&self, agent_id: &AgentId) -> (r: u32)
        ensures
            r == self.http_of(*agent_id),
    {
        match self.find_http(agent_id) {
            Some(i) => {
                proof { lemma_assoc_last(self.per_agent_http_requests@, *agent_id, i as int); }
                self.per_agent_http_requests[i].1
            },
            None => {
                proof { lemma_assoc_absent(self.per_agent_http_requests@, *agent_id); }
                0
            },
        }
    }

    fn charge(&mut self, agent_id: &AgentId, usage: QuotaUsage)
        ensures
            final(self).usage_of(*agent_id) == accumulated(old(self).usage_of(*agent_id), usage),
            final(self).http_of(*agent_id) == sat_add_u32(old(self).http_of(*agent_id), usage.http_requests),
            forall|b: AgentId| b != *agent_id ==> #[trigger] final(self).usage_of(b) == old(self).usage_of(b)
                && final(self).http_of(b) == old(self).http_of(b),
            final(self).tick_usage == accumulated(old(self).tick_usage, usage),
            final(self).tick_id == old(self).tick_id,
            final(self).tick_started_at == old(self).tick_started_at,
            final(self).http_window_start == old(self).http_window_start,
    {
        self.tick_usage.accumulate(usage);
        let ghost old_usage = self.per_agent_usage@;
        match self.find_usage(agent_id) {
            Some(i) => {
                let mut entry = self.per_agent_usage[i].1;
                proof { lemma_assoc_last(old_usage, *agent_id, i as int); }
                entry.accumulate(usage);
                self.per_agent_usage.set(i, (*agent_id, entry));
                proof {
                    assert forall|b: AgentId| #[trigger] assoc_get(self.per_agent_usage@, b)
                        == if b == *agent_id { Some(entry) } else { assoc_get(old_usage, b) } by {
                        lemma_assoc_update(old_usage, *agent_id, i as int, entry, b);
                    }
                }
            },
            None => {
                let mut entry = QuotaUsage::zero();
                proof { lemma_assoc_absent(old_usage, *agent_id); }
                entry.accumulate(usage);
                self.per_agent_usage.push((*agent_id, entry));
                proof {
                    assert forall|b: AgentId| #[trigger] assoc_get(self.per_agent_usage@, b)
                        == if b == *agent_id { Some(entry) } else { assoc_get(old_usage, b) } by {
                        lemma_assoc_push(old_usage, *agent_id, entry, b);
                    }
                }
            },
        }
        let ghost old_http = self.per_agent_http_requests@;
        match self.find_http(agent_id) {
            Some(i) => {
                let count = self.per_agent_http_requests[i].1.saturating_add(usage.http_requests);
                proof { lemma_assoc_last(old_http, *agent_id, i as int); }
                self.per_agent_http_requests.set(i, (*agent_id, count));
                proof {
                    assert forall|b: AgentId| #[trigger] assoc_get(self.per_agent_http_requests@, b)
                        == if b == *agent_id { Some(count) } else { assoc_get(old_http, b) } by {
                        lemma_assoc_update(old_http, *agent_id, i as int, count, b);
                    }
                }
            },
            None => {
                let count = 0u32.saturating_add(usage.http_requests);
                proof { lemma_assoc_absent(old_http, *agent_id); }
                self.per_agent_http_requests.push((*agent_id, count));
                proof {
                    assert forall|b: AgentId| #[trigger] assoc_get(self.per_agent_http_requests@, b)
                        == if b == *agent_id { Some(count) } else { assoc_get(old_http, b) } by {
                        lemma_assoc_push(old_http, *agent_id, count, b);
                    }
                }
            },
        }
    }

    /// Checks `usage` against the policy limits for `agent_id` and charges it
    /// when no limit would be exceeded. A denied request charges nothing.
    pub fn record_usage(
        &mut self,
        policy: &QuotaPolicy,
        tenant_id: &TenantId,
        agent_id: &AgentId,
        usage: QuotaUsage,
        now: Timestamp,
    ) -> (r: VerificationResult)
        ensures
            strs(r.reasons@) == quota_reasons(*policy, old(self).usage_of(*agent_id), old(self).http_at(*agent_id, now), usage),
            r.allowed == (r.reasons@.len() == 0),
            r.allowed ==> r.artifacts is Null,
            !r.allowed ==> r.artifacts is Object,
            // The HTTP window rolls over once a minute has passed.
            old(self).window_expires(now) ==> final(self).http_window_start == now,
            !old(self).window_expires(now) ==> final(self).http_window_start == old(self).http_window_start,
            // An allowed request is charged to the requesting agent only.
            r.allowed ==> final(self).usage_of(*agent_id) == accumulated(old(self).usage_of(*agent_id), usage)
                && final(self).http_of(*agent_id) == sat_add_u32(old(self).http_at(*agent_id, now), usage.http_requests)
                && final(self).tick_usage == accumulated(old(self).tick_usage, usage),
            // A denied request charges nothing.
            !r.allowed ==> final(self).usage_of(*agent_id) == old(self).usage_of(*agent_id)
                && final(self).http_of(*agent_id) == old(self).http_at(*agent_id, now)
                && final(self).tick_usage == old(self).tick_usage,
            // No other agent's budget moves.
            forall|b: AgentId| b != *agent_id ==> #[trigger] final(self).usage_of(b) == old(self).usage_of(b)
                && final(self).http_of(b) == old(self).http_at(b, now),
            final(self).tick_id == old(self).tick_id,
            final(self).tick_started_at == old(self).tick_started_at,
            // An agent that was within its limits stays within them.
            within_limits(*policy, old(self).usage_of(*agent_id), old(self).http_at(*agent_id, now))
                ==> within_limits(*policy, final(self).usage_of(*agent_id), final(self).http_of(*agent_id)),
    {
        let ghost pre = *old(self);
        self.roll_http_window(now);
        proof {
            assert forall|b: AgentId| #[trigger] self.http_of(b) == pre.http_at(b, now) by {
                if pre.window_expires(now) {
                    assert(self.per_agent_http_requests@.len() == 0);
                }
            }
        }
        let current = self.current_usage(agent_id);
        let current_http = self.current_http(agent_id);
        let mut reasons: Vec<String> = Vec::new();
        let mut artifacts = Json::object();
        let ghost mut expected: Seq<Seq<char>> = seq![];

        if let Some(limit) = policy.max_action_duration_ms {
            if usage.action_duration_ms > limit {
                reasons.push(String::from_str("max_action_duration_ms"));
                artifacts.insert(String::from_str("action_duration_ms"),
                    limit_object2(limit, usage.action_duration_ms));
            }
        }
        proof {
            expected = reason_if(exceeds(policy.max_action_duration_ms, usage.action_duration_ms as int), "max_action_duration_ms"@);
            assert(strs(reasons@) =~= expected);
        }

        if let Some(limit) = policy.max_actions_per_tick {
            let next_total = current.actions.saturating_add(usage.actions);
            if next_total > limit {
                reasons.push(String::from_str("max_actions_per_tick"));
                artifacts.insert(String::from_str("actions_per_tick"),
                    limit_object3(limit as u64, current.actions as u64, usage.actions as u64));
            }
        }
        proof {
            let e = reason_if(exceeds32(policy.max_actions_per_tick, sat_add_u32(current.actions, usage.actions) as int), "max_actions_per_tick"@);
            expected = expected + e;
            assert(strs(reasons@) =~= expected);
        }

        check_bytes_quota("filesystem_read_bytes", policy.filesystem.max_read_bytes,
            current.filesystem_read_bytes, usage.filesystem_read_bytes, &mut reasons, &mut artifacts);
        proof {
            expected = expected + reason_if(exceeds(policy.filesystem.max_read_bytes,
                sat_add_u64(current.filesystem_read_bytes, usage.filesystem_read_bytes) as int), "filesystem_read_bytes"@);
        }
        check_bytes_quota("filesystem_write_bytes", policy.filesystem.max_write_bytes,
            current.filesystem_write_bytes, usage.filesystem_write_bytes, &mut reasons, &mut artifacts);
        proof {
            expected = expected + reason_if(exceeds(policy.filesystem.max_write_bytes,
                sat_add_u64(current.filesystem_write_bytes, usage.filesystem_write_bytes) as int), "filesystem_write_bytes"@);
        }
        check_bytes_quota("network_read_bytes", policy.network.max_read_bytes,
            current.network_read_bytes, usage.network_read_bytes, &mut reasons, &mut artifacts);
        proof {
            expected = expected + reason_if(exceeds(policy.network.max_read_bytes,
                sat_add_u64(current.network_read_bytes, usage.network_read_bytes) as int), "network_read_bytes"@);
        }
        check_bytes_quota("network_write_bytes", policy.network.max_write_bytes,
            current.network_write_bytes, usage.network_write_bytes, &mut reasons, &mut artifacts);
        proof {
            expected = expected + reason_if(exceeds(policy.network.max_write_bytes,
                sat_add_u64(current.network_write_bytes, usage.network_write_bytes) as int), "network_write_bytes"@);
        }

        if let Some(limit) = policy.max_http_requests_per_minute {
            let next_total = current_http.saturating_add(usage.http_requests);
            if next_total > limit {
                reasons.push(String::from_str("max_http_requests_per_minute"));
                artifacts.insert(String::from_str("http_requests_per_minute"),
                    limit_object3(limit as u64, current_http as u64, usage.http_requests as u64));
            }
        }
        proof {
            expected = expected + reason_if(exceeds32(policy.max_http_requests_per_minute,
                sat_add_u32(current_http, usage.http_requests) as int), "max_http_requests_per_minute"@);
            assert(strs(reasons@) =~= expected);
            assert(expected =~= quota_reasons(*policy, current, current_http, usage));
        }

        if reasons.len() > 0 {
            let mut context = Json::object();
            context.insert(String::from_str("source"), Json::Str(String::from_str(QUOTA_LEDGER_SOURCE)));
            context.insert(String::from_str("tenant_id"), Json::Str(crate::textual::uuid_string(tenant_id.value)));
            context.insert(String::from_str("agent_id"), Json::Str(crate::textual::uuid_string(agent_id.value)));
            context.insert(String::from_str("tick_id"), Json::UInt(self.tick_id));
            artifacts.insert(String::from_str("context"), context);
            return VerificationResult { allowed: false, reasons, artifacts };
        }

        self.charge(agent_id, usage);
        VerificationResult::allow()
    }
}

/// Source label embedded in quota denial artifacts.
pub const QUOTA_LEDGER_SOURCE: &'static str = "quota_ledger";

fn limit_object2(limit: u64, actual: u64) -> (r: Json)
    ensures
        r is Object,
{
    let mut o = Json::object();
    o.insert(String::from_str("limit"), Json::UInt(limit));
    o.insert(String::from_str("actual"), Json::UInt(actual));
    o
}

fn limit_object3(limit: u64, current: u64, requested: u64) -> (r: Json)
    ensures
        r is Object,
{
    let mut o = Json::object();
    o.insert(String::from_str("limit"), Json::UInt(limit));
    o.insert(String::from_str("current"), Json::UInt(current));
    o.insert(String::from_str("requested"), Json::UInt(requested));
    o
}

/// Appends `label` to `reasons` when the byte limit is set and
/// `current + requested` (saturating) is above it.
pub fn check_bytes_quota(
    label: &str,
    limit: Option<u64>,
    current: u64,
    requested: u64,
    reasons: &mut Vec<String>,
    artifacts: &mut Json,
)
    requires
        *old(artifacts) is Object,
    ensures
        strs(final(reasons)@) == strs(old(reasons)@) + reason_if(exceeds(limit, sat_add_u64(current, requested) as int), label@),
        *final(artifacts) is Object,
{
    let ghost before = strs(reasons@);
    if let Some(limit) = limit {
        let next_total = current.saturating_add(requested);
        if next_total > limit {
            reasons.push(String::from_str(label));
            artifacts.insert(String::from_str(label), limit_object3(limit, current, requested));
        }
    }
    assert(strs(reasons@) =~= before + reason_if(exceeds(limit, sat_add_u64(current, requested) as int), label@));
}

} // verus!
