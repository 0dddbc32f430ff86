//! A read-only fleet telemetry collector: it ingests operational reports
//! (heartbeats, instance, run, queue and trace-sync reports, quota, denial
//! and failure signals) and builds deterministic snapshots. It is not
//! consulted by authorization.

use vstd::prelude::*;
use crate::clock::{Span, Timestamp, clamp_i128};
use crate::daemon::RunStatus;
use crate::ids::{ActionId, AgentId, RunId, TenantId};
use crate::node_registry::{InstanceId, NodeId};

verus! {

/// Identity of a fleet.
#[derive(Clone, Copy, Debug, PartialEq, Eq, Structural)]
pub struct FleetId {
    pub value: u128,
}

/// Heartbeat ages from which a node counts as stale, then offline.
#[derive(Clone, Copy, Debug, PartialEq, Eq, Structural)]
pub struct TelemetryThresholds {
    pub stale_after: Span,
    pub offline_after: Span,
}

impl TelemetryThresholds {
    /// Stale after 30 s, offline after 120 s.
    pub fn standard() -> (r: TelemetryThresholds)
        ensures
            r.stale_after.nanos == 30_000_000_000,
            r.offline_after.nanos == 120_000_000_000,
    {
        TelemetryThresholds { stale_after: Span::seconds(30), offline_after: Span::seconds(120) }
    }
}

impl Default for TelemetryThresholds {
    fn default() -> (r: TelemetryThresholds)
        ensures
            r.stale_after.nanos == 30_000_000_000,
            r.offline_after.nanos == 120_000_000_000,
    {
        TelemetryThresholds::standard()
    }
}

/// How reachable a node looks from its last heartbeat.
#[derive(Clone, Copy, Debug, PartialEq, Eq, Structural)]
pub enum NodeConnectivity {
    Online,
    Stale,
    Offline,
}

/// A node with no heartbeat is offline; otherwise the heartbeat's age at
/// `observed_at` decides: from `offline_after` on offline, from
/// `stale_after` on stale, else online.
pub open spec fn connectivity(heartbeat: Option<Timestamp>, observed_at: Timestamp, stale_after: Span, offline_after: Span) -> NodeConnectivity {
    match heartbeat {
        None => NodeConnectivity::Offline,
        Some(h) => {
            let age = clamp_i128(observed_at.unix_nanos - h.unix_nanos);
            if age >= offline_after.nanos {
                NodeConnectivity::Offline
            } else if age >= stale_after.nanos {
                NodeConnectivity::Stale
            } else {
                NodeConnectivity::Online
            }
        },
    }
}

/// A node's view in a snapshot.
#[derive(Debug)]
pub struct NodeTelemetry {
    pub fleet_id: FleetId,
    pub node_id: NodeId,
    pub last_heartbeat_at: Option<Timestamp>,
    pub connectivity: NodeConnectivity,
    pub instance_ids: Vec<InstanceId>,
}

impl NodeTelemetry {
    /// A node's telemetry from its last heartbeat, if any.
    pub fn from_heartbeat(
        fleet_id: FleetId,
        node_id: NodeId,
        heartbeat: Option<Timestamp>,
        observed_at: Timestamp,
        stale_after: Span,
        offline_after: Span,
        instance_ids: Vec<InstanceId>,
    ) -> (r: NodeTelemetry)
        ensures
            r.fleet_id == fleet_id,
            r.node_id == node_id,
            r.last_heartbeat_at == heartbeat,
            r.connectivity == connectivity(heartbeat, observed_at, stale_after, offline_after),
            r.instance_ids == instance_ids,
    {
        let status = match heartbeat {
            None => NodeConnectivity::Offline,
            Some(h) => {
                let age = observed_at.since(&h);
                if age.nanos >= offline_after.nanos {
                    NodeConnectivity::Offline
                } else if age.nanos >= stale_after.nanos {
                    NodeConnectivity::Stale
                } else {
                    NodeConnectivity::Online
                }
            },
        };
        NodeTelemetry { fleet_id, node_id, last_heartbeat_at: heartbeat, connectivity: status, instance_ids }
    }
}

/// How many runs are in each status.
#[derive(Clone, Copy, Debug, PartialEq, Eq, Structural)]
pub struct RunStatusCounts {
    pub created: u64,
    pub running: u64,
    pub paused: u64,
    pub stopped: u64,
    pub failed: u64,
}

pub open spec fn zero_counts() -> RunStatusCounts {
    RunStatusCounts { created: 0, running: 0, paused: 0, stopped: 0, failed: 0 }
}

/// The counts after one more run in status `s` (saturating).
pub open spec fn count_one(c: RunStatusCounts, s: RunStatus) -> RunStatusCounts {
    match s {
        RunStatus::Created => RunStatusCounts { created: sat_inc(c.created), ..c },
        RunStatus::Running => RunStatusCounts { running: sat_inc(c.running), ..c },
        RunStatus::Paused => RunStatusCounts { paused: sat_inc(c.paused), ..c },
        RunStatus::Stopped => RunStatusCounts { stopped: sat_inc(c.stopped), ..c },
        RunStatus::Failed => RunStatusCounts { failed: sat_inc(c.failed), ..c },
    }
}

pub open spec fn sat_inc(n: u64) -> u64 {
    if n == u64::MAX { u64::MAX } else { (n + 1) as u64 }
}

/// The counts of a sequence of statuses.
pub open spec fn counts_of(statuses: Seq<RunStatus>) -> RunStatusCounts
    decreases statuses.len(),
{
    if statuses.len() == 0 {
        zero_counts()
    } else {
        count_one(counts_of(statuses.drop_last()), statuses.last())
    }
}

fn count_status(c: RunStatusCounts, s: RunStatus) -> (r: RunStatusCounts)
    ensures
        r == count_one(c, s),
{
    match s {
        RunStatus::Created => RunStatusCounts { created: c.created.saturating_add(1), ..c },
        RunStatus::Running => RunStatusCounts { running: c.running.saturating_add(1), ..c },
        RunStatus::Paused => RunStatusCounts { paused: c.paused.saturating_add(1), ..c },
        RunStatus::Stopped => RunStatusCounts { stopped: c.stopped.saturating_add(1), ..c },
        RunStatus::Failed => RunStatusCounts { failed: c.failed.saturating_add(1), ..c },
    }
}

impl RunStatusCounts {
    /// Counts the statuses.
    pub fn from_statuses(statuses: &[RunStatus]) -> (r: RunStatusCounts)
        ensures
            r == counts_of(statuses@),
    {
        let mut c = RunStatusCounts { created: 0, running: 0, paused: 0, stopped: 0, failed: 0 };
        let mut i: usize = 0;
        while i < statuses.len()
            invariant
                i <= statuses@.len(),
                c == counts_of(statuses@.take(i as int)),
            decreases statuses@.len() - i,
        {
            proof {
                assert(statuses@.take(i as int + 1).drop_last() =~= statuses@.take(i as int));
            }
            c = count_status(c, statuses[i]);
            i = i + 1;
        }
        proof {
            assert(statuses@.take(statuses@.len() as int) =~= statuses@);
        }
        c
    }
}

/// A runtime instance's report.
#[derive(Clone, Copy, Debug, PartialEq, Eq, Structural)]
pub struct InstanceTelemetry {
    pub instance_id: InstanceId,
    pub node_id: NodeId,
    pub current_run_counts: RunStatusCounts,
    pub reported_at: Timestamp,
}

/// A run's report.
#[derive(Clone, Copy, Debug, PartialEq, Eq, Structural)]
pub struct RunTelemetry {
    pub run_id: RunId,
    pub instance_id: InstanceId,
    pub status: RunStatus,
    pub reported_at: Timestamp,
}

/// An instance's queue report.
#[derive(Clone, Copy, Debug, PartialEq, Eq, Structural)]
pub struct QueueTelemetry {
    pub instance_id: InstanceId,
    pub depth: u64,
    pub reported_at: Timestamp,
}

/// How far a node/instance pair's trace sync has come.
#[derive(Clone, Copy, Debug, PartialEq, Eq, Structural)]
pub struct TraceSyncTelemetry {
    pub node_id: NodeId,
    pub instance_id: InstanceId,
    pub last_synced_sequence: u64,
    pub pending_events: u64,
    pub reported_at: Timestamp,
}

/// A quota observation.
#[derive(Clone, Copy, Debug, PartialEq, Eq, Structural)]
pub struct QuotaSignal {
    pub tenant_id: TenantId,
    pub agent_id: Option<AgentId>,
    pub used: u64,
    pub limit: u64,
    pub recorded_at: Timestamp,
}

/// A denial observation.
#[derive(Clone, Copy, Debug, PartialEq, Eq, Structural)]
pub struct DenialSignal {
    pub tenant_id: TenantId,
    pub agent_id: AgentId,
    pub action_id: Option<ActionId>,
    pub recorded_at: Timestamp,
}

/// A failure observation.
#[derive(Clone, Copy, Debug, PartialEq, Eq, Structural)]
pub struct FailureSignal {
    pub node_id: Option<NodeId>,
    pub instance_id: Option<InstanceId>,
    pub run_id: Option<RunId>,
    pub recorded_at: Timestamp,
}

/// Reports kept in a table ordered by a key.
pub trait Keyed {
    spec fn key_spec(&self) -> (u128, u128);

    fn key(&self) -> (r: (u128, u128))
        ensures
            r == self.key_spec();
}

/// Observations kept in the order of their times.
pub trait Timed {
    spec fn time_spec(&self) -> i128;

    fn time(&self) -> (r: i128)
        ensures
            r == self.time_spec();
}

impl Keyed for InstanceTelemetry {
    open spec fn key_spec(&self) -> (u128, u128) {
        (self.instance_id.value, 0)
    }

    fn key(&self) -> (r: (u128, u128)) {
        (self.instance_id.value, 0)
    }
}

impl Keyed for RunTelemetry {
    open spec fn key_spec(&self) -> (u128, u128) {
        (self.run_id.value, 0)
    }

    fn key(&self) -> (r: (u128, u128)) {
        (self.run_id.value, 0)
    }
}

impl Keyed for QueueTelemetry {
    open spec fn key_spec(&self) -> (u128, u128) {
        (self.instance_id.value, 0)
    }

    fn key(&self) -> (r: (u128, u128)) {
        (self.instance_id.value, 0)
    }
}

impl Keyed for TraceSyncTelemetry {
    open spec fn key_spec(&self) -> (u128, u128) {
        (self.node_id.value, self.instance_id.value)
    }

    fn key(&self) -> (r: (u128, u128)) {
        (self.node_id.value, self.instance_id.value)
    }
}

/// A heartbeat entry: a node and its latest heartbeat.
#[derive(Clone, Copy, Debug, PartialEq, Eq, Structural)]
pub struct HeartbeatEntry {
    pub node_id: NodeId,
    pub heartbeat_at: Timestamp,
}

impl Keyed for HeartbeatEntry {
    open spec fn key_spec(&self) -> (u128, u128) {
        (self.node_id.value, 0)
    }

    fn key(&self) -> (r: (u128, u128)) {
        (self.node_id.value, 0)
    }
}

impl Timed for QuotaSignal {
    open spec fn time_spec(&self) -> i128 {
        self.recorded_at.unix_nanos
    }

    fn time(&self) -> (r: i128) {
        self.recorded_at.unix_nanos
    }
}

impl Timed for DenialSignal {
    open spec fn time_spec(&self) -> i128 {
        self.recorded_at.unix_nanos
    }

    fn time(&self) -> (r: i128) {
        self.recorded_at.unix_nanos
    }
}

impl Timed for FailureSignal {
    open spec fn time_spec(&self) -> i128 {
        self.recorded_at.unix_nanos
    }

    fn time(&self) -> (r: i128) {
        self.recorded_at.unix_nanos
    }
}

/// `a` comes before `b` in key order.
pub open spec fn key_lt(a: (u128, u128), b: (u128, u128)) -> bool {
    a.0 < b.0 || (a.0 == b.0 && a.1 < b.1)
}

/// Keys strictly increase along the table.
pub open spec fn keys_sorted<T: Keyed>(s: Seq<T>) -> bool {
    forall|i: int, j: int| 0 <= i < j < s.len() ==> key_lt((#[trigger] s[i]).key_spec(), (#[trigger] s[j]).key_spec())
}

/// Times never decrease along the list.
pub open spec fn times_sorted<T: Timed>(s: Seq<T>) -> bool {
    forall|i: int, j: int| 0 <= i < j < s.len() ==> (#[trigger] s[i]).time_spec() <= (#[trigger] s[j]).time_spec()
}

pub open spec fn has_key<T: Keyed>(s: Seq<T>, k: (u128, u128)) -> bool {
    exists|i: int| 0 <= i < s.len() && (#[trigger] s[i]).key_spec() == k
}

fn lt(a: (u128, u128), b: (u128, u128)) -> (r: bool)
    ensures
        r == key_lt(a, b),
{
    a.0 < b.0 || (a.0 == b.0 && a.1 < b.1)
}

/// `after` is `before` with `item` put in its key's place: replacing the
/// entry with that key, or inserted where the order puts it.
pub open spec fn upserted<T: Keyed>(before: Seq<T>, item: T, after: Seq<T>) -> bool {
    ||| (exists|i: int| 0 <= i < before.len() && (#[trigger] before[i]).key_spec() == item.key_spec() && after == before.update(i, item))
    ||| (!has_key(before, item.key_spec()) && exists|i: int| 0 <= i <= before.len() && after == #[trigger] before.insert(i, item))
}

/// `after` is `before` with `item` placed after every entry not later than
/// it and before every later one.
pub open spec fn placed_in_time<T: Timed>(before: Seq<T>, item: T, after: Seq<T>) -> bool {
    exists|i: int| 0 <= i <= before.len()
        && (forall|j: int| 0 <= j < i ==> (#[trigger] before[j]).time_spec() <= item.time_spec())
        && (forall|j: int| i <= j < before.len() ==> (#[trigger] before[j]).time_spec() > item.time_spec())
        && after == before.insert(i, item)
}

/// Inserts `item` into a key-ordered table, replacing the entry with the same
/// key.
fn upsert<T: Keyed + Copy>(v: &mut Vec<T>, item: T)
    requires
        keys_sorted(old(v)@),
    ensures
        keys_sorted(final(v)@),
        has_key(old(v)@, item.key_spec()) ==> exists|i: int| 0 <= i < old(v)@.len()
            && (#[trigger] old(v)@[i]).key_spec() == item.key_spec() && final(v)@ == old(v)@.update(i, item),
        !has_key(old(v)@, item.key_spec()) ==> exists|i: int| 0 <= i <= old(v)@.len()
            && final(v)@ == #[trigger] old(v)@.insert(i, item),
        forall|q: (u128, u128)| #[trigger] has_key(final(v)@, q) <==> has_key(old(v)@, q) || q == item.key_spec(),
        upserted(old(v)@, item, final(v)@),
{
    let k = item.key();
    let mut i: usize = 0;
    while i < v.len()
        invariant
            i <= v@.len(),
            v@ == old(v)@,
            k == item.key_spec(),
            keys_sorted(v@),
            forall|j: int| 0 <= j < i ==> key_lt((#[trigger] v@[j]).key_spec(), k),
        ensures
            i <= v@.len(),
            v@ == old(v)@,
            keys_sorted(v@),
            forall|j: int| 0 <= j < i ==> key_lt((#[trigger] v@[j]).key_spec(), k),
            i < v@.len() ==> !key_lt(v@[i as int].key_spec(), k),
        decreases v@.len() - i,
    {
        if !lt(v[i].key(), k) {
            break;
        }
        i = i + 1;
    }
    let found = if i < v.len() {
        let ki = v[i].key();
        ki.0 == k.0 && ki.1 == k.1
    } else {
        false
    };
    if found {
        let ghost before = v@;
        v.set(i, item);
        proof {
            assert(before[i as int].key_spec() == item.key_spec());
            assert forall|a: int, b: int| 0 <= a < b < v@.len() implies key_lt((#[trigger] v@[a]).key_spec(), (#[trigger] v@[b]).key_spec()) by {
                if a != i as int && b != i as int {
                    assert(v@[a] == before[a] && v@[b] == before[b]);
                } else if a == i as int {
                    assert(key_lt(before[a].key_spec(), before[b].key_spec()));
                } else {
                    assert(key_lt(before[a].key_spec(), before[b].key_spec()));
                }
            }
            assert forall|q: (u128, u128)| #[trigger] has_key(v@, q) <==> has_key(before, q) || q == item.key_spec() by {
                if has_key(v@, q) {
                    let w = choose|w: int| 0 <= w < v@.len() && (#[trigger] v@[w]).key_spec() == q;
                    if w != i as int {
                        assert(before[w].key_spec() == q);
                    }
                }
                if has_key(before, q) {
                    let w = choose|w: int| 0 <= w < before.len() && (#[trigger] before[w]).key_spec() == q;
                    if w != i as int {
                        assert(v@[w].key_spec() == q);
                    } else {
                        assert(v@[i as int].key_spec() == q);
                    }
                }
                if q == item.key_spec() {
                    assert(v@[i as int].key_spec() == q);
                }
            }
        }
    } else {
        let ghost before = v@;
        proof {
            if i < v@.len() {
                assert(!key_lt(v@[i as int].key_spec(), k));
                assert(v@[i as int].key_spec() != k);
                assert(key_lt(k, v@[i as int].key_spec()));
            }
            assert forall|j: int| 0 <= j < before.len() implies (#[trigger] before[j]).key_spec() != k by {
                if j >= i as int && (i as int) < before.len() {
                    if j > i as int {
                        assert(key_lt(before[i as int].key_spec(), before[j].key_spec()));
                    }
                }
            }
        }
        v.insert(i, item);
        proof {
            assert(v@ == before.insert(i as int, item));
            assert forall|a: int, b: int| 0 <= a < b < v@.len() implies key_lt((#[trigger] v@[a]).key_spec(), (#[trigger] v@[b]).key_spec()) by {
                if b < i as int {
                    assert(v@[a] == before[a] && v@[b] == before[b]);
                } else if a > i as int {
                    assert(v@[a] == before[a - 1] && v@[b] == before[b - 1]);
                } else if a == i as int {
                    assert(v@[b] == before[b - 1]);
                    if (b - 1) > i as int {
                        assert(key_lt(before[i as int].key_spec(), before[b - 1].key_spec()));
                    }
                } else if b == i as int {
                    assert(v@[a] == before[a]);
                } else {
                    assert(v@[a] == before[a] && v@[b] == before[b - 1]);
                    if b - 1 > a {
                        assert(key_lt(before[a].key_spec(), before[b - 1].key_spec()));
                    }
                }
            }
            assert forall|q: (u128, u128)| #[trigger] has_key(v@, q) <==> has_key(before, q) || q == item.key_spec() by {
                if has_key(v@, q) {
                    let w = choose|w: int| 0 <= w < v@.len() && (#[trigger] v@[w]).key_spec() == q;
                    if w < i as int {
                        assert(before[w].key_spec() == q);
                    } else if w > i as int {
                        assert(before[w - 1].key_spec() == q);
                    }
                }
                if has_key(before, q) {
                    let w = choose|w: int| 0 <= w < before.len() && (#[trigger] before[w]).key_spec() == q;
                    if w < i as int {
                        assert(v@[w].key_spec() == q);
                    } else {
                        assert(v@[w + 1].key_spec() == q);
                    }
                }
                if q == item.key_spec() {
                    assert(v@[i as int].key_spec() == q);
                }
            }
        }
    }
}

/// Appends `item` after every entry whose time is not later than its own.
fn insert_by_time<T: Timed + Copy>(v: &mut Vec<T>, item: T)
    requires
        times_sorted(old(v)@),
    ensures
        times_sorted(final(v)@),
        placed_in_time(old(v)@, item, final(v)@),
{
    let t = item.time();
    let mut i: usize = v.len();
    while i > 0
        invariant
            i <= v@.len(),
            v@ == old(v)@,
            t == item.time_spec(),
            times_sorted(v@),
            forall|j: int| i <= j < v@.len() ==> (#[trigger] v@[j]).time_spec() > t,
        ensures
            i <= v@.len(),
            v@ == old(v)@,
            times_sorted(v@),
            forall|j: int| i <= j < v@.len() ==> (#[trigger] v@[j]).time_spec() > t,
            i > 0 ==> v@[i - 1].time_spec() <= t,
        decreases i,
    {
        if v[i - 1].time() <= t {
            break;
        }
        i = i - 1;
    }
    let ghost before = v@;
    proof {
        assert forall|j: int| 0 <= j < i implies (#[trigger] before[j]).time_spec() <= t by {
            if i > 0 {
                assert(before[i - 1].time_spec() <= t);
                if j < i - 1 {
                    assert(before[j].time_spec() <= before[i - 1].time_spec());
                }
            }
        }
    }
    v.insert(i, item);
    proof {
        assert(v@ == before.insert(i as int, item));
        assert forall|a: int, b: int| 0 <= a < b < v@.len() implies (#[trigger] v@[a]).time_spec() <= (#[trigger] v@[b]).time_spec() by {
            if b < i as int {
                assert(v@[a] == before[a] && v@[b] == before[b]);
            } else if a > i as int {
                assert(v@[a] == before[a - 1] && v@[b] == before[b - 1]);
            } else if a == i as int {
                assert(v@[b] == before[b - 1]);
            } else if b == i as int {
                assert(v@[a] == before[a]);
            } else {
                assert(v@[a] == before[a] && v@[b] == before[b - 1]);
            }
        }
    }
}

/// A node as a table key.
#[derive(Clone, Copy, Debug, PartialEq, Eq, Structural)]
pub struct NodeKey {
    pub node_id: NodeId,
}

impl Keyed for NodeKey {
    open spec fn key_spec(&self) -> (u128, u128) {
        (self.node_id.value, 0)
    }

    fn key(&self) -> (r: (u128, u128)) {
        (self.node_id.value, 0)
    }
}

/// The latest heartbeat recorded for `n`.
pub open spec fn heartbeat_of(s: Seq<HeartbeatEntry>, n: NodeId) -> Option<Timestamp>
    decreases s.len(),
{
    if s.len() == 0 {
        None
    } else if s.last().node_id == n {
        Some(s.last().heartbeat_at)
    } else {
        heartbeat_of(s.drop_last(), n)
    }
}

/// The instances reported on node `n`, in table order.
pub open spec fn instance_ids_on(s: Seq<InstanceTelemetry>, n: NodeId) -> Seq<InstanceId>
    decreases s.len(),
{
    if s.len() == 0 {
        seq![]
    } else if s.last().node_id == n {
        instance_ids_on(s.drop_last(), n).push(s.last().instance_id)
    } else {
        instance_ids_on(s.drop_last(), n)
    }
}

/// The statuses of the runs reported on instance `i`, in table order.
pub open spec fn statuses_on(s: Seq<RunTelemetry>, i: InstanceId) -> Seq<RunStatus>
    decreases s.len(),
{
    if s.len() == 0 {
        seq![]
    } else if s.last().instance_id == i {
        statuses_on(s.drop_last(), i).push(s.last().status)
    } else {
        statuses_on(s.drop_last(), i)
    }
}

/// A heartbeat was recorded for `n`.
pub open spec fn node_reported(heartbeats: Seq<HeartbeatEntry>, n: NodeId) -> bool {
    exists|j: int| 0 <= j < heartbeats.len() && (#[trigger] heartbeats[j]).node_id == n
}

/// An instance on `n` was reported.
pub open spec fn node_hosts(instances: Seq<InstanceTelemetry>, n: NodeId) -> bool {
    exists|j: int| 0 <= j < instances.len() && (#[trigger] instances[j]).node_id == n
}

/// The nodes a snapshot lists: every node with a heartbeat or an instance.
pub open spec fn known_node(heartbeats: Seq<HeartbeatEntry>, instances: Seq<InstanceTelemetry>, n: NodeId) -> bool {
    node_reported(heartbeats, n) || node_hosts(instances, n)
}

/// A read-only view of the fleet at one moment.
#[derive(Debug)]
pub struct FleetTelemetrySnapshot {
    pub fleet_id: FleetId,
    pub observed_at: Timestamp,
    pub nodes: Vec<NodeTelemetry>,
    pub instances: Vec<InstanceTelemetry>,
    pub runs: Vec<RunTelemetry>,
    pub queues: Vec<QueueTelemetry>,
    pub quota_signals: Vec<QuotaSignal>,
    pub denial_signals: Vec<DenialSignal>,
    pub trace_sync: Vec<TraceSyncTelemetry>,
    pub failures: Vec<FailureSignal>,
}

impl FleetTelemetrySnapshot {
    /// An empty snapshot.
    pub fn new(fleet_id: FleetId, observed_at: Timestamp) -> (r: FleetTelemetrySnapshot)
        ensures
            r.fleet_id == fleet_id,
            r.observed_at == observed_at,
            r.nodes@.len() == 0 && r.instances@.len() == 0 && r.runs@.len() == 0 && r.queues@.len() == 0,
            r.quota_signals@.len() == 0 && r.denial_signals@.len() == 0 && r.trace_sync@.len() == 0 && r.failures@.len() == 0,
    {
        FleetTelemetrySnapshot {
            fleet_id,
            observed_at,
            nodes: Vec::new(),
            instances: Vec::new(),
            runs: Vec::new(),
            queues: Vec::new(),
            quota_signals: Vec::new(),
            denial_signals: Vec::new(),
            trace_sync: Vec::new(),
            failures: Vec::new(),
        }
    }
}

/// The fleet telemetry collector.
pub struct FleetTelemetryCollector {
    fleet_id: FleetId,
    thresholds: TelemetryThresholds,
    heartbeats: Vec<HeartbeatEntry>,
    instances: Vec<InstanceTelemetry>,
    runs: Vec<RunTelemetry>,
    queues: Vec<QueueTelemetry>,
    quota_signals: Vec<QuotaSignal>,
    denial_signals: Vec<DenialSignal>,
    trace_sync: Vec<TraceSyncTelemetry>,
    failures: Vec<FailureSignal>,
}

fn copy_all<T: Copy>(v: &Vec<T>) -> (r: Vec<T>)
    ensures
        r@ == v@,
{
    let mut out: Vec<T> = Vec::new();
    let mut i: usize = 0;
    while i < v.len()
        invariant
            i <= v@.len(),
            out@ == v@.take(i as int),
        decreases v@.len() - i,
    {
        out.push(v[i]);
        proof {
            assert(out@ =~= v@.take(i as int + 1));
        }
        i = i + 1;
    }
    proof {
        assert(v@.take(v@.len() as int) =~= v@);
    }
    out
}

impl FleetTelemetryCollector {
    pub closed spec fn fleet(&self) -> FleetId {
        self.fleet_id
    }

    pub closed spec fn limits(&self) -> TelemetryThresholds {
        self.thresholds
    }

    pub closed spec fn heartbeat_table(&self) -> Seq<HeartbeatEntry> {
        self.heartbeats@
    }

    pub closed spec fn instance_table(&self) -> Seq<InstanceTelemetry> {
        self.instances@
    }

    pub closed spec fn run_table(&self) -> Seq<RunTelemetry> {
        self.runs@
    }

    pub closed spec fn queue_table(&self) -> Seq<QueueTelemetry> {
        self.queues@
    }

    pub closed spec fn trace_sync_table(&self) -> Seq<TraceSyncTelemetry> {
        self.trace_sync@
    }

    pub closed spec fn quota_log(&self) -> Seq<QuotaSignal> {
        self.quota_signals@
    }

    pub closed spec fn denial_log(&self) -> Seq<DenialSignal> {
        self.denial_signals@
    }

    pub closed spec fn failure_log(&self) -> Seq<FailureSignal> {
        self.failures@
    }

    /// Every table is ordered by its key and every log by time.
    pub open spec fn wf(&self) -> bool {
        &&& keys_sorted(self.heartbeat_table())
        &&& keys_sorted(self.instance_table())
        &&& keys_sorted(self.run_table())
        &&& keys_sorted(self.queue_table())
        &&& keys_sorted(self.trace_sync_table())
        &&& times_sorted(self.quota_log())
        &&& times_sorted(self.denial_log())
        &&& times_sorted(self.failure_log())
    }

    /// An empty collector with the standard thresholds.
    pub fn new(fleet_id: FleetId) -> (r: FleetTelemetryCollector)
        ensures
            r.wf(),
            r.fleet() == fleet_id,
            r.limits().stale_after.nanos == 30_000_000_000,
            r.limits().offline_after.nanos == 120_000_000_000,
            r.heartbeat_table().len() == 0 && r.instance_table().len() == 0 && r.run_table().len() == 0,
            r.queue_table().len() == 0 && r.trace_sync_table().len() == 0,
            r.quota_log().len() == 0 && r.denial_log().len() == 0 && r.failure_log().len() == 0,
    {
        FleetTelemetryCollector::with_thresholds(fleet_id, TelemetryThresholds::standard())
    }

    /// An empty collector.
    pub fn with_thresholds(fleet_id: FleetId, thresholds: TelemetryThresholds) -> (r: FleetTelemetryCollector)
        ensures
            r.wf(),
            r.fleet() == fleet_id,
            r.limits() == thresholds,
            r.heartbeat_table().len() == 0 && r.instance_table().len() == 0 && r.run_table().len() == 0,
            r.queue_table().len() == 0 && r.trace_sync_table().len() == 0,
            r.quota_log().len() == 0 && r.denial_log().len() == 0 && r.failure_log().len() == 0,
    {
        FleetTelemetryCollector {
            fleet_id,
            thresholds,
            heartbeats: Vec::new(),
            instances: Vec::new(),
            runs: Vec::new(),
            queues: Vec::new(),
            quota_signals: Vec::new(),
            denial_signals: Vec::new(),
            trace_sync: Vec::new(),
            failures: Vec::new(),
        }
    }

    /// Records the latest heartbeat of a node.
    pub fn ingest_node_heartbeat(&mut self, node_id: NodeId, heartbeat_at: Timestamp)
        requires
            old(self).wf(),
        ensures
            final(self).wf(),
            final(self).instance_table() == old(self).instance_table(),
            final(self).run_table() == old(self).run_table(),
            forall|n: NodeId| #[trigger] heartbeat_of(final(self).heartbeat_table(), n)
                == if n == node_id { Some(heartbeat_at) } else { heartbeat_of(old(self).heartbeat_table(), n) },
            forall|n: NodeId| #[trigger] node_reported(final(self).heartbeat_table(), n)
                <==> (n == node_id || node_reported(old(self).heartbeat_table(), n)),
    {
        let ghost before = self.heartbeats@;
        upsert(&mut self.heartbeats, HeartbeatEntry { node_id, heartbeat_at });
        proof {
            let item = HeartbeatEntry { node_id, heartbeat_at };
            let after = self.heartbeats@;
            assert forall|n: NodeId| #[trigger] heartbeat_of(after, n) == if n == node_id { Some(heartbeat_at) } else { heartbeat_of(before, n) } by {
                lemma_heartbeat_of_unique(after, n);
                lemma_heartbeat_of_unique(before, n);
                if n == node_id {
                    assert(has_key(after, item.key_spec()));
                    let w = choose|w: int| 0 <= w < after.len() && (#[trigger] after[w]).key_spec() == item.key_spec();
                    lemma_upsert_finds(before, item, after, w);
                    lemma_heartbeat_at(after, n, w);
                } else {
                    if has_key(before, (n.value, 0u128)) {
                        let w = choose|w: int| 0 <= w < before.len() && (#[trigger] before[w]).key_spec() == (n.value, 0u128);
                        assert(before[w].node_id == n);
                    }
                    if has_key(after, (n.value, 0u128)) {
                        let w = choose|w: int| 0 <= w < after.len() && (#[trigger] after[w]).key_spec() == (n.value, 0u128);
                        assert(after[w].node_id == n);
                    }
                    assert(has_key(after, (n.value, 0u128)) == has_key(before, (n.value, 0u128)));
                    if has_key(before, (n.value, 0u128)) {
                        let w = choose|w: int| 0 <= w < before.len() && (#[trigger] before[w]).key_spec() == (n.value, 0u128);
                        let w2 = choose|w: int| 0 <= w < after.len() && (#[trigger] after[w]).key_spec() == (n.value, 0u128);
                        lemma_heartbeat_at(before, n, w);
                        lemma_heartbeat_at(after, n, w2);
                        lemma_upsert_keeps(before, item, after, w, w2);
                    }
                }
            }
            assert forall|n: NodeId| #[trigger] node_reported(after, n)
                <==> (n == node_id || node_reported(before, n)) by {
                if node_reported(after, n) {
                    let j = choose|j: int| 0 <= j < after.len() && (#[trigger] after[j]).node_id == n;
                    assert(has_key(after, (n.value, 0u128)));
                    if n != node_id {
                        assert(has_key(before, (n.value, 0u128)));
                        let w = choose|w: int| 0 <= w < before.len() && (#[trigger] before[w]).key_spec() == (n.value, 0u128);
                        assert(before[w].node_id == n);
                    }
                }
                if n == node_id || node_reported(before, n) {
                    if n != node_id {
                        let j = choose|j: int| 0 <= j < before.len() && (#[trigger] before[j]).node_id == n;
                        assert(has_key(before, (n.value, 0u128)));
                    }
                    assert(has_key(after, (n.value, 0u128)));
                    let w = choose|w: int| 0 <= w < after.len() && (#[trigger] after[w]).key_spec() == (n.value, 0u128);
                    assert(after[w].node_id == n);
                }
            }
        }
    }
}

/// In a key-ordered heartbeat table a node has at most one entry, and the
/// lookup finds it.
proof fn lemma_heartbeat_at(s: Seq<HeartbeatEntry>, n: NodeId, w: int)
    requires
        keys_sorted(s),
        0 <= w < s.len(),
        s[w].node_id == n,
    ensures
        heartbeat_of(s, n) == Some(s[w].heartbeat_at),
    decreases s.len(),
{
    if w != s.len() - 1 {
        assert(key_lt(s[w].key_spec(), s.last().key_spec()));
        assert(s.last().node_id != n);
        assert(keys_sorted(s.drop_last())) by {
            assert forall|i: int, j: int| 0 <= i < j < s.drop_last().len() implies key_lt((#[trigger] s.drop_last()[i]).key_spec(), (#[trigger] s.drop_last()[j]).key_spec()) by {
                assert(s.drop_last()[i] == s[i] && s.drop_last()[j] == s[j]);
            }
        }
        assert(s.drop_last()[w] == s[w]);
        lemma_heartbeat_at(s.drop_last(), n, w);
    }
}

/// A node without an entry has no heartbeat.
proof fn lemma_heartbeat_of_unique(s: Seq<HeartbeatEntry>, n: NodeId)
    ensures
        !has_key(s, (n.value, 0u128)) ==> heartbeat_of(s, n) is None,
    decreases s.len(),
{
    if s.len() > 0 {
        lemma_heartbeat_of_unique(s.drop_last(), n);
        if !has_key(s, (n.value, 0u128)) {
            assert(s.last().key_spec() != (n.value, 0u128));
            assert forall|w: int| 0 <= w < s.drop_last().len() implies (#[trigger] s.drop_last()[w]).key_spec() != (n.value, 0u128) by {
                assert(s.drop_last()[w] == s[w]);
            }
        }
    }
}

/// After an upsert the entry with the item's key is the item.
proof fn lemma_upsert_finds<T: Keyed>(before: Seq<T>, item: T, after: Seq<T>, w: int)
    requires
        keys_sorted(after),
        0 <= w < after.len(),
        after[w].key_spec() == item.key_spec(),
        (exists|i: int| 0 <= i < before.len() && (#[trigger] before[i]).key_spec() == item.key_spec() && after == before.update(i, item))
            || (exists|i: int| 0 <= i <= before.len() && after == #[trigger] before.insert(i, item)),
    ensures
        after[w] == item,
{
    let i = if exists|i: int| 0 <= i < before.len() && (#[trigger] before[i]).key_spec() == item.key_spec() && after == before.update(i, item) {
        choose|i: int| 0 <= i < before.len() && (#[trigger] before[i]).key_spec() == item.key_spec() && after == before.update(i, item)
    } else {
        choose|i: int| 0 <= i <= before.len() && after == #[trigger] before.insert(i, item)
    };
    assert(after[i] == item);
    if w != i {
        if w < i {
            assert(key_lt(after[w].key_spec(), after[i].key_spec()));
        } else {
            assert(key_lt(after[i].key_spec(), after[w].key_spec()));
        }
    }
}

/// An upsert leaves the entries of other keys as they were.
proof fn lemma_upsert_keeps<T: Keyed>(before: Seq<T>, item: T, after: Seq<T>, w: int, w2: int)
    requires
        keys_sorted(before),
        keys_sorted(after),
        0 <= w < before.len(),
        0 <= w2 < after.len(),
        before[w].key_spec() == after[w2].key_spec(),
        before[w].key_spec() != item.key_spec(),
        (exists|i: int| 0 <= i < before.len() && (#[trigger] before[i]).key_spec() == item.key_spec() && after == before.update(i, item))
            || (exists|i: int| 0 <= i <= before.len() && after == #[trigger] before.insert(i, item)),
    ensures
        after[w2] == before[w],
{
    if exists|i: int| 0 <= i < before.len() && (#[trigger] before[i]).key_spec() == item.key_spec() && after == before.update(i, item) {
        let i = choose|i: int| 0 <= i < before.len() && (#[trigger] before[i]).key_spec() == item.key_spec() && after == before.update(i, item);
        assert(w != i);
        assert(after[w] == before[w]);
        if w2 != w {
            if w2 < w {
                assert(key_lt(after[w2].key_spec(), after[w].key_spec()));
            } else {
                assert(key_lt(after[w].key_spec(), after[w2].key_spec()));
            }
        }
    } else {
        let i = choose|i: int| 0 <= i <= before.len() && after == #[trigger] before.insert(i, item);
        let p = if w < i { w } else { w + 1 };
        assert(after[p] == before[w]);
        if w2 != p {
            if w2 < p {
                assert(key_lt(after[w2].key_spec(), after[p].key_spec()));
            } else {
                assert(key_lt(after[p].key_spec(), after[w2].key_spec()));
            }
        }
    }
}

fn heartbeat_lookup(s: &Vec<HeartbeatEntry>, n: NodeId) -> (r: Option<Timestamp>)
    ensures
        r == heartbeat_of(s@, n),
{
    let mut i: usize = s.len();
    proof { assert(s@.take(s@.len() as int) =~= s@); }
    while i > 0
        invariant
            i <= s@.len(),
            heartbeat_of(s@, n) == heartbeat_of(s@.take(i as int), n),
        decreases i,
    {
        proof {
            assert(s@.take(i as int).drop_last() =~= s@.take(i - 1));
        }
        if s[i - 1].node_id == n {
            return Some(s[i - 1].heartbeat_at);
        }
        i = i - 1;
    }
    None
}

fn instances_on(s: &Vec<InstanceTelemetry>, n: NodeId) -> (r: Vec<InstanceId>)
    ensures
        r@ == instance_ids_on(s@, n),
{
    let mut out: Vec<InstanceId> = Vec::new();
    let mut i: usize = 0;
    while i < s.len()
        invariant
            i <= s@.len(),
            out@ == instance_ids_on(s@.take(i as int), n),
        decreases s@.len() - i,
    {
        proof {
            assert(s@.take(i as int + 1).drop_last() =~= s@.take(i as int));
        }
        if s[i].node_id == n {
            out.push(s[i].instance_id);
        }
        i = i + 1;
    }
    proof { assert(s@.take(s@.len() as int) =~= s@); }
    out
}

fn statuses_for(s: &Vec<RunTelemetry>, instance_id: InstanceId) -> (r: Vec<RunStatus>)
    ensures
        r@ == statuses_on(s@, instance_id),
{
    let mut out: Vec<RunStatus> = Vec::new();
    let mut i: usize = 0;
    while i < s.len()
        invariant
            i <= s@.len(),
            out@ == statuses_on(s@.take(i as int), instance_id),
        decreases s@.len() - i,
    {
        proof {
            assert(s@.take(i as int + 1).drop_last() =~= s@.take(i as int));
        }
        if s[i].instance_id == instance_id {
            out.push(s[i].status);
        }
        i = i + 1;
    }
    proof { assert(s@.take(s@.len() as int) =~= s@); }
    out
}

/// An instance as a snapshot shows it: its run counts recomputed from the
/// run reports.
pub open spec fn instance_view(t: InstanceTelemetry, runs: Seq<RunTelemetry>) -> InstanceTelemetry {
    InstanceTelemetry { current_run_counts: counts_of(statuses_on(runs, t.instance_id)), ..t }
}

/// A snapshot's node entry agrees with the reports.
pub open spec fn node_view_ok(
    nt: NodeTelemetry,
    fleet: FleetId,
    thresholds: TelemetryThresholds,
    heartbeats: Seq<HeartbeatEntry>,
    instances: Seq<InstanceTelemetry>,
    observed_at: Timestamp,
) -> bool {
    &&& nt.fleet_id == fleet
    &&& nt.last_heartbeat_at == heartbeat_of(heartbeats, nt.node_id)
    &&& nt.connectivity == connectivity(heartbeat_of(heartbeats, nt.node_id), observed_at, thresholds.stale_after, thresholds.offline_after)
    &&& nt.instance_ids@ == instance_ids_on(instances, nt.node_id)
}

/// `n` has an entry in the snapshot's node list.
pub open spec fn listed(nodes: Seq<NodeTelemetry>, n: NodeId) -> bool {
    exists|i: int| 0 <= i < nodes.len() && (#[trigger] nodes[i]).node_id == n
}

impl FleetTelemetryCollector {
    /// Inserts or replaces an instance report.
    pub fn upsert_instance(&mut self, instance: InstanceTelemetry)
        requires
            old(self).wf(),
        ensures
            final(self).wf(),
            upserted(old(self).instance_table(), instance, final(self).instance_table()),
            final(self).heartbeat_table() == old(self).heartbeat_table(),
            final(self).run_table() == old(self).run_table(),
            final(self).fleet() == old(self).fleet(),
            final(self).limits() == old(self).limits(),
    {
        upsert(&mut self.instances, instance);
    }

    /// Inserts or replaces a run report.
    pub fn upsert_run(&mut self, run: RunTelemetry)
        requires
            old(self).wf(),
        ensures
            final(self).wf(),
            upserted(old(self).run_table(), run, final(self).run_table()),
            final(self).heartbeat_table() == old(self).heartbeat_table(),
            final(self).instance_table() == old(self).instance_table(),
            final(self).fleet() == old(self).fleet(),
            final(self).limits() == old(self).limits(),
    {
        upsert(&mut self.runs, run);
    }

    /// Inserts or replaces a queue report.
    pub fn upsert_queue(&mut self, queue: QueueTelemetry)
        requires
            old(self).wf(),
        ensures
            final(self).wf(),
            upserted(old(self).queue_table(), queue, final(self).queue_table()),
            final(self).fleet() == old(self).fleet(),
    {
        upsert(&mut self.queues, queue);
    }

    /// Inserts or replaces the trace sync report of a node/instance pair.
    pub fn upsert_trace_sync(&mut self, sync: TraceSyncTelemetry)
        requires
            old(self).wf(),
        ensures
            final(self).wf(),
            upserted(old(self).trace_sync_table(), sync, final(self).trace_sync_table()),
            final(self).fleet() == old(self).fleet(),
    {
        upsert(&mut self.trace_sync, sync);
    }

    /// Records a quota signal.
    pub fn record_quota_signal(&mut self, signal: QuotaSignal)
        requires
            old(self).wf(),
        ensures
            final(self).wf(),
            placed_in_time(old(self).quota_log(), signal, final(self).quota_log()),
            final(self).fleet() == old(self).fleet(),
    {
        insert_by_time(&mut self.quota_signals, signal);
    }

    /// Records a denial signal.
    pub fn record_denial_signal(&mut self, signal: DenialSignal)
        requires
            old(self).wf(),
        ensures
            final(self).wf(),
            placed_in_time(old(self).denial_log(), signal, final(self).denial_log()),
            final(self).fleet() == old(self).fleet(),
    {
        insert_by_time(&mut self.denial_signals, signal);
    }

    /// Records a failure signal.
    pub fn record_failure(&mut self, failure: FailureSignal)
        requires
            old(self).wf(),
        ensures
            final(self).wf(),
            placed_in_time(old(self).failure_log(), failure, final(self).failure_log()),
            final(self).fleet() == old(self).fleet(),
    {
        insert_by_time(&mut self.failures, failure);
    }

    /// The nodes known from heartbeats and instance reports, in id order.
    fn node_keys(&self) -> (r: Vec<NodeKey>)
        requires
            self.wf(),
        ensures
            keys_sorted(r@),
            forall|n: NodeId| #[trigger] has_key(r@, (n.value, 0u128)) <==> known_node(self.heartbeat_table(), self.instance_table(), n),
            forall|i: int| 0 <= i < r@.len() ==> (#[trigger] r@[i]).key_spec().1 == 0,
    {
        let mut keys: Vec<NodeKey> = Vec::new();
        let mut i: usize = 0;
        while i < self.heartbeats.len()
            invariant
                i <= self.heartbeats@.len(),
                keys_sorted(keys@),
                forall|k: int| 0 <= k < keys@.len() ==> (#[trigger] keys@[k]).key_spec().1 == 0,
                forall|n: NodeId| #[trigger] has_key(keys@, (n.value, 0u128)) <==> node_reported(self.heartbeats@.take(i as int), n),
            decreases self.heartbeats@.len() - i,
        {
            let item = NodeKey { node_id: self.heartbeats[i].node_id };
            let ghost before = keys@;
            upsert(&mut keys, item);
            proof {
                let hb = self.heartbeats@;
                assert forall|k: int| 0 <= k < keys@.len() implies (#[trigger] keys@[k]).key_spec().1 == 0 by {
                    assert(has_key(keys@, keys@[k].key_spec()));
                }
                assert forall|n: NodeId| #[trigger] has_key(keys@, (n.value, 0u128)) <==> node_reported(hb.take(i as int + 1), n) by {
                    if node_reported(hb.take(i as int + 1), n) {
                        let j = choose|j: int| 0 <= j < hb.take(i as int + 1).len() && (#[trigger] hb.take(i as int + 1)[j]).node_id == n;
                        if j < i as int {
                            assert(hb.take(i as int)[j] == hb.take(i as int + 1)[j]);
                            assert(node_reported(hb.take(i as int), n));
                        }
                    }
                    if node_reported(hb.take(i as int), n) {
                        let j = choose|j: int| 0 <= j < hb.take(i as int).len() && (#[trigger] hb.take(i as int)[j]).node_id == n;
                        assert(hb.take(i as int + 1)[j] == hb.take(i as int)[j]);
                    }
                    if n == hb[i as int].node_id {
                        assert(hb.take(i as int + 1)[i as int].node_id == n);
                    }
                    if has_key(keys@, (n.value, 0u128)) && !has_key(before, (n.value, 0u128)) {
                        assert(n.value == hb[i as int].node_id.value);
                        assert(hb.take(i as int + 1)[i as int].node_id == n);
                    }
                }
            }
            i = i + 1;
        }
        proof {
            assert(self.heartbeats@.take(self.heartbeats@.len() as int) =~= self.heartbeats@);
        }
        let mut j: usize = 0;
        while j < self.instances.len()
            invariant
                j <= self.instances@.len(),
                keys_sorted(keys@),
                forall|k: int| 0 <= k < keys@.len() ==> (#[trigger] keys@[k]).key_spec().1 == 0,
                forall|n: NodeId| #[trigger] has_key(keys@, (n.value, 0u128))
                    <==> (node_reported(self.heartbeats@, n) || node_hosts(self.instances@.take(j as int), n)),
            decreases self.instances@.len() - j,
        {
            let item = NodeKey { node_id: self.instances[j].node_id };
            let ghost before = keys@;
            upsert(&mut keys, item);
            proof {
                let ins = self.instances@;
                assert forall|k: int| 0 <= k < keys@.len() implies (#[trigger] keys@[k]).key_spec().1 == 0 by {
                    assert(has_key(keys@, keys@[k].key_spec()));
                }
                assert forall|n: NodeId| #[trigger] has_key(keys@, (n.value, 0u128))
                    <==> (node_reported(self.heartbeats@, n) || node_hosts(ins.take(j as int + 1), n)) by {
                    if node_hosts(ins.take(j as int + 1), n) {
                        let q = choose|q: int| 0 <= q < ins.take(j as int + 1).len() && (#[trigger] ins.take(j as int + 1)[q]).node_id == n;
                        if q < j as int {
                            assert(ins.take(j as int)[q] == ins.take(j as int + 1)[q]);
                            assert(node_hosts(ins.take(j as int), n));
                        }
                    }
                    if node_hosts(ins.take(j as int), n) {
                        let q = choose|q: int| 0 <= q < ins.take(j as int).len() && (#[trigger] ins.take(j as int)[q]).node_id == n;
                        assert(ins.take(j as int + 1)[q] == ins.take(j as int)[q]);
                    }
                    if n == ins[j as int].node_id {
                        assert(ins.take(j as int + 1)[j as int].node_id == n);
                    }
                    if has_key(keys@, (n.value, 0u128)) && !has_key(before, (n.value, 0u128)) {
                        assert(n.value == ins[j as int].node_id.value);
                        assert(ins.take(j as int + 1)[j as int].node_id == n);
                    }
                }
            }
            j = j + 1;
        }
        proof {
            assert(self.instances@.take(self.instances@.len() as int) =~= self.instances@);
        }
        keys
    }

    /// A read-only snapshot at `observed_at`: nodes in id order with their
    /// heartbeat state and instances, instances with run counts recomputed
    /// from the run reports, and every other table and log as recorded.
    pub fn snapshot(&self, observed_at: Timestamp) -> (r: FleetTelemetrySnapshot)
        requires
            self.wf(),
        ensures
            r.fleet_id == self.fleet(),
            r.observed_at == observed_at,
            forall|i: int, j: int| 0 <= i < j < r.nodes@.len() ==> (#[trigger] r.nodes@[i]).node_id.value < (#[trigger] r.nodes@[j]).node_id.value,
            forall|n: NodeId| #[trigger] listed(r.nodes@, n) <==> known_node(self.heartbeat_table(), self.instance_table(), n),
            forall|i: int| 0 <= i < r.nodes@.len() ==> node_view_ok(#[trigger] r.nodes@[i], self.fleet(), self.limits(),
                self.heartbeat_table(), self.instance_table(), observed_at),
            r.instances@.len() == self.instance_table().len(),
            forall|i: int| 0 <= i < r.instances@.len() ==> #[trigger] r.instances@[i] == instance_view(self.instance_table()[i], self.run_table()),
            r.runs@ == self.run_table(),
            r.queues@ == self.queue_table(),
            r.trace_sync@ == self.trace_sync_table(),
            r.quota_signals@ == self.quota_log(),
            r.denial_signals@ == self.denial_log(),
            r.failures@ == self.failure_log(),
    {
        let keys = self.node_keys();
        let mut nodes: Vec<NodeTelemetry> = Vec::new();
        let mut k: usize = 0;
        while k < keys.len()
            invariant
                k <= keys@.len(),
                self.wf(),
                keys_sorted(keys@),
                nodes@.len() == k,
                forall|i: int| 0 <= i < k ==> (#[trigger] nodes@[i]).node_id == keys@[i].node_id,
                forall|i: int| 0 <= i < k ==> node_view_ok(#[trigger] nodes@[i], self.fleet(), self.limits(),
                    self.heartbeat_table(), self.instance_table(), observed_at),
            decreases keys@.len() - k,
        {
            let n = keys[k].node_id;
            let heartbeat = heartbeat_lookup(&self.heartbeats, n);
            let ids = instances_on(&self.instances, n);
            let node = NodeTelemetry::from_heartbeat(self.fleet_id, n, heartbeat, observed_at,
                self.thresholds.stale_after, self.thresholds.offline_after, ids);
            nodes.push(node);
            k = k + 1;
        }
        proof {
            assert forall|i: int, j: int| 0 <= i < j < nodes@.len() implies (#[trigger] nodes@[i]).node_id.value < (#[trigger] nodes@[j]).node_id.value by {
                assert(key_lt(keys@[i].key_spec(), keys@[j].key_spec()));
                assert(keys@[i].key_spec().1 == 0 && keys@[j].key_spec().1 == 0);
            }
            assert forall|n: NodeId| #[trigger] listed(nodes@, n) <==> known_node(self.heartbeat_table(), self.instance_table(), n) by {
                if listed(nodes@, n) {
                    let i = choose|i: int| 0 <= i < nodes@.len() && (#[trigger] nodes@[i]).node_id == n;
                    assert(keys@[i].key_spec() == (n.value, 0u128));
                    assert(has_key(keys@, (n.value, 0u128)));
                }
                if known_node(self.heartbeat_table(), self.instance_table(), n) {
                    assert(has_key(keys@, (n.value, 0u128)));
                    let i = choose|i: int| 0 <= i < keys@.len() && (#[trigger] keys@[i]).key_spec() == (n.value, 0u128);
                    assert(nodes@[i].node_id == n);
                }
            }
        }
        let mut instances: Vec<InstanceTelemetry> = Vec::new();
        let mut i: usize = 0;
        while i < self.instances.len()
            invariant
                i <= self.instances@.len(),
                instances@.len() == i,
                forall|q: int| 0 <= q < i ==> #[trigger] instances@[q] == instance_view(self.instances@[q], self.runs@),
            decreases self.instances@.len() - i,
        {
            let t = self.instances[i];
            let statuses = statuses_for(&self.runs, t.instance_id);
            let counts = RunStatusCounts::from_statuses(statuses.as_slice());
            instances.push(InstanceTelemetry { current_run_counts: counts, ..t });
            i = i + 1;
        }
        FleetTelemetrySnapshot {
            fleet_id: self.fleet_id,
            observed_at,
            nodes,
            instances,
            runs: copy_all(&self.runs),
            queues: copy_all(&self.queues),
            quota_signals: copy_all(&self.quota_signals),
            denial_signals: copy_all(&self.denial_signals),
            trace_sync: copy_all(&self.trace_sync),
            failures: copy_all(&self.failures),
        }
    }
}

/// How far a connectivity has degraded: online, stale, offline.
pub open spec fn degradation(c: NodeConnectivity) -> int {
    match c {
        NodeConnectivity::Online => 0,
        NodeConnectivity::Stale => 1,
        NodeConnectivity::Offline => 2,
    }
}

/// Without a newer heartbeat a node's connectivity only degrades as time
/// passes (with the stale threshold at most the offline one).
pub proof fn lemma_connectivity_only_degrades(heartbeat: Option<Timestamp>, earlier: Timestamp, later: Timestamp, stale_after: Span, offline_after: Span)
    requires
        earlier.unix_nanos <= later.unix_nanos,
        stale_after.nanos <= offline_after.nanos,
    ensures
        degradation(connectivity(heartbeat, earlier, stale_after, offline_after))
            <= degradation(connectivity(heartbeat, later, stale_after, offline_after)),
{
}

/// A newer heartbeat never makes a node look less reachable.
pub proof fn lemma_newer_heartbeat_never_degrades(older: Timestamp, newer: Timestamp, observed_at: Timestamp, stale_after: Span, offline_after: Span)
    requires
        older.unix_nanos <= newer.unix_nanos,
        stale_after.nanos <= offline_after.nanos,
    ensures
        degradation(connectivity(Some(newer), observed_at, stale_after, offline_after))
            <= degradation(connectivity(Some(older), observed_at, stale_after, offline_after)),
{
}

} // verus!
