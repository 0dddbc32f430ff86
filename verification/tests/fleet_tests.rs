use splendor::clock::{Span, Timestamp};
use splendor::daemon::RunStatus;
use splendor::fleet_telemetry::{
    DenialSignal, FailureSignal, FleetId, FleetTelemetryCollector, FleetTelemetrySnapshot, InstanceTelemetry,
    NodeConnectivity, NodeTelemetry, QueueTelemetry, QuotaSignal, RunStatusCounts, RunTelemetry, TelemetryThresholds,
    TraceSyncTelemetry,
};
use splendor::ids::{ActionId, AgentId, RunId, TenantId};
use splendor::node_registry::{InstanceId, NodeId};

const SECOND: i128 = 1_000_000_000;

fn at(seconds: i128) -> Timestamp {
    Timestamp { unix_nanos: seconds * SECOND }
}

fn zero_counts() -> RunStatusCounts {
    RunStatusCounts { created: 0, running: 0, paused: 0, stopped: 0, failed: 0 }
}

fn instance(id: u128, node: u128, seconds: i128) -> InstanceTelemetry {
    InstanceTelemetry {
        instance_id: InstanceId { value: id },
        node_id: NodeId { value: node },
        current_run_counts: zero_counts(),
        reported_at: at(seconds),
    }
}

fn run(id: u128, instance_id: u128, status: RunStatus) -> RunTelemetry {
    RunTelemetry { run_id: RunId { value: id }, instance_id: InstanceId { value: instance_id }, status, reported_at: at(1) }
}

#[test]
fn standard_thresholds_are_thirty_and_one_hundred_twenty_seconds() {
    let t = TelemetryThresholds::standard();
    assert_eq!(t.stale_after.nanos, 30 * SECOND);
    assert_eq!(t.offline_after.nanos, 120 * SECOND);
    assert_eq!(TelemetryThresholds::default(), t);
}

#[test]
fn connectivity_follows_heartbeat_age() {
    let fleet = FleetId { value: 1 };
    let stale = Span::seconds(30);
    let offline = Span::seconds(120);
    let node = NodeId { value: 5 };
    let online = NodeTelemetry::from_heartbeat(fleet, node, Some(at(100)), at(129), stale, offline, vec![]);
    assert_eq!(online.connectivity, NodeConnectivity::Online);
    let at_stale = NodeTelemetry::from_heartbeat(fleet, node, Some(at(100)), at(130), stale, offline, vec![]);
    assert_eq!(at_stale.connectivity, NodeConnectivity::Stale);
    let before_offline = NodeTelemetry::from_heartbeat(fleet, node, Some(at(100)), at(219), stale, offline, vec![]);
    assert_eq!(before_offline.connectivity, NodeConnectivity::Stale);
    let gone = NodeTelemetry::from_heartbeat(fleet, node, Some(at(100)), at(220), stale, offline, vec![]);
    assert_eq!(gone.connectivity, NodeConnectivity::Offline);
    let never = NodeTelemetry::from_heartbeat(fleet, node, None, at(0), stale, offline, vec![]);
    assert_eq!(never.connectivity, NodeConnectivity::Offline);
    assert_eq!(never.last_heartbeat_at, None);
}

#[test]
fn run_status_counts_tally_each_status() {
    let counts = RunStatusCounts::from_statuses(&[
        RunStatus::Running,
        RunStatus::Running,
        RunStatus::Paused,
        RunStatus::Failed,
        RunStatus::Created,
        RunStatus::Running,
    ]);
    assert_eq!(counts, RunStatusCounts { created: 1, running: 3, paused: 1, stopped: 0, failed: 1 });
    assert_eq!(RunStatusCounts::from_statuses(&[]), zero_counts());
}

#[test]
fn empty_snapshot_has_no_entries() {
    let snapshot = FleetTelemetrySnapshot::new(FleetId { value: 9 }, at(3));
    assert_eq!(snapshot.fleet_id, FleetId { value: 9 });
    assert_eq!(snapshot.observed_at, at(3));
    assert!(snapshot.nodes.is_empty() && snapshot.instances.is_empty() && snapshot.runs.is_empty());
    assert!(snapshot.failures.is_empty() && snapshot.quota_signals.is_empty());

    let collector = FleetTelemetryCollector::new(FleetId { value: 9 });
    let empty = collector.snapshot(at(3));
    assert!(empty.nodes.is_empty() && empty.instances.is_empty() && empty.queues.is_empty());
    assert!(empty.trace_sync.is_empty() && empty.denial_signals.is_empty());
}

#[test]
fn snapshot_lists_nodes_in_id_order_with_their_instances() {
    let mut collector = FleetTelemetryCollector::new(FleetId { value: 1 });
    collector.ingest_node_heartbeat(NodeId { value: 30 }, at(100));
    collector.ingest_node_heartbeat(NodeId { value: 10 }, at(50));
    collector.upsert_instance(instance(7, 20, 60));
    collector.upsert_instance(instance(3, 10, 60));
    collector.upsert_instance(instance(5, 10, 60));

    let snapshot = collector.snapshot(at(100));
    let ids: Vec<u128> = snapshot.nodes.iter().map(|n| n.node_id.value).collect();
    assert_eq!(ids, vec![10, 20, 30]);

    let first = &snapshot.nodes[0];
    assert_eq!(first.last_heartbeat_at, Some(at(50)));
    assert_eq!(first.connectivity, NodeConnectivity::Stale);
    let on_first: Vec<u128> = first.instance_ids.iter().map(|i| i.value).collect();
    assert_eq!(on_first, vec![3, 5]);

    let second = &snapshot.nodes[1];
    assert_eq!(second.last_heartbeat_at, None);
    assert_eq!(second.connectivity, NodeConnectivity::Offline);
    assert_eq!(second.instance_ids, vec![InstanceId { value: 7 }]);

    let third = &snapshot.nodes[2];
    assert_eq!(third.connectivity, NodeConnectivity::Online);
    assert!(third.instance_ids.is_empty());
    assert!(snapshot.nodes.iter().all(|n| n.fleet_id == FleetId { value: 1 }));
}

#[test]
fn a_later_heartbeat_replaces_the_earlier_one() {
    let mut collector = FleetTelemetryCollector::new(FleetId { value: 1 });
    collector.ingest_node_heartbeat(NodeId { value: 4 }, at(10));
    collector.ingest_node_heartbeat(NodeId { value: 4 }, at(200));
    let snapshot = collector.snapshot(at(205));
    assert_eq!(snapshot.nodes.len(), 1);
    assert_eq!(snapshot.nodes[0].last_heartbeat_at, Some(at(200)));
    assert_eq!(snapshot.nodes[0].connectivity, NodeConnectivity::Online);
}

#[test]
fn custom_thresholds_decide_connectivity() {
    let thresholds = TelemetryThresholds { stale_after: Span::seconds(5), offline_after: Span::seconds(10) };
    let mut collector = FleetTelemetryCollector::with_thresholds(FleetId { value: 2 }, thresholds);
    collector.ingest_node_heartbeat(NodeId { value: 1 }, at(0));
    assert_eq!(collector.snapshot(at(4)).nodes[0].connectivity, NodeConnectivity::Online);
    assert_eq!(collector.snapshot(at(5)).nodes[0].connectivity, NodeConnectivity::Stale);
    assert_eq!(collector.snapshot(at(10)).nodes[0].connectivity, NodeConnectivity::Offline);
}

#[test]
fn instance_counts_are_recomputed_from_run_reports() {
    let mut collector = FleetTelemetryCollector::new(FleetId { value: 1 });
    let mut reported = instance(8, 1, 5);
    reported.current_run_counts = RunStatusCounts { created: 9, running: 9, paused: 9, stopped: 9, failed: 9 };
    collector.upsert_instance(reported);
    collector.upsert_instance(instance(9, 1, 5));
    collector.upsert_run(run(100, 8, RunStatus::Running));
    collector.upsert_run(run(101, 8, RunStatus::Paused));
    collector.upsert_run(run(102, 9, RunStatus::Stopped));
    collector.upsert_run(run(100, 8, RunStatus::Failed));

    let snapshot = collector.snapshot(at(6));
    assert_eq!(snapshot.instances.len(), 2);
    assert_eq!(snapshot.instances[0].instance_id, InstanceId { value: 8 });
    assert_eq!(
        snapshot.instances[0].current_run_counts,
        RunStatusCounts { created: 0, running: 0, paused: 1, stopped: 0, failed: 1 }
    );
    assert_eq!(
        snapshot.instances[1].current_run_counts,
        RunStatusCounts { created: 0, running: 0, paused: 0, stopped: 1, failed: 0 }
    );
    let run_ids: Vec<u128> = snapshot.runs.iter().map(|r| r.run_id.value).collect();
    assert_eq!(run_ids, vec![100, 101, 102]);
    assert_eq!(snapshot.runs[0].status, RunStatus::Failed);
}

#[test]
fn queues_and_trace_sync_are_upserted_by_key() {
    let mut collector = FleetTelemetryCollector::new(FleetId { value: 1 });
    collector.upsert_queue(QueueTelemetry { instance_id: InstanceId { value: 2 }, depth: 4, reported_at: at(1) });
    collector.upsert_queue(QueueTelemetry { instance_id: InstanceId { value: 1 }, depth: 7, reported_at: at(1) });
    collector.upsert_queue(QueueTelemetry { instance_id: InstanceId { value: 2 }, depth: 0, reported_at: at(2) });
    let sync = |node: u128, inst: u128, seq: u64| TraceSyncTelemetry {
        node_id: NodeId { value: node },
        instance_id: InstanceId { value: inst },
        last_synced_sequence: seq,
        pending_events: 0,
        reported_at: at(1),
    };
    collector.upsert_trace_sync(sync(2, 1, 10));
    collector.upsert_trace_sync(sync(1, 9, 3));
    collector.upsert_trace_sync(sync(1, 2, 5));
    collector.upsert_trace_sync(sync(2, 1, 11));

    let snapshot = collector.snapshot(at(3));
    let depths: Vec<(u128, u64)> = snapshot.queues.iter().map(|q| (q.instance_id.value, q.depth)).collect();
    assert_eq!(depths, vec![(1, 7), (2, 0)]);
    let syncs: Vec<(u128, u128, u64)> = snapshot
        .trace_sync
        .iter()
        .map(|s| (s.node_id.value, s.instance_id.value, s.last_synced_sequence))
        .collect();
    assert_eq!(syncs, vec![(1, 2, 5), (1, 9, 3), (2, 1, 11)]);
}

#[test]
fn signals_are_kept_in_time_order_and_ties_keep_arrival_order() {
    let mut collector = FleetTelemetryCollector::new(FleetId { value: 1 });
    let tenant = TenantId { value: 1 };
    let quota = |used: u64, seconds: i128| QuotaSignal { tenant_id: tenant, agent_id: None, used, limit: 10, recorded_at: at(seconds) };
    collector.record_quota_signal(quota(1, 30));
    collector.record_quota_signal(quota(2, 10));
    collector.record_quota_signal(quota(3, 30));
    collector.record_quota_signal(quota(4, 20));

    let denial = |action: u128, seconds: i128| DenialSignal {
        tenant_id: tenant,
        agent_id: AgentId { value: 2 },
        action_id: Some(ActionId { value: action }),
        recorded_at: at(seconds),
    };
    collector.record_denial_signal(denial(1, 5));
    collector.record_denial_signal(denial(2, 1));

    let failure = |run_id: u128, seconds: i128| FailureSignal {
        node_id: None,
        instance_id: None,
        run_id: Some(RunId { value: run_id }),
        recorded_at: at(seconds),
    };
    collector.record_failure(failure(1, 8));
    collector.record_failure(failure(2, 8));
    collector.record_failure(failure(3, 2));

    let snapshot = collector.snapshot(at(40));
    let used: Vec<u64> = snapshot.quota_signals.iter().map(|s| s.used).collect();
    assert_eq!(used, vec![2, 4, 1, 3]);
    let actions: Vec<u128> = snapshot.denial_signals.iter().map(|s| s.action_id.unwrap().value).collect();
    assert_eq!(actions, vec![2, 1]);
    let runs: Vec<u128> = snapshot.failures.iter().map(|f| f.run_id.unwrap().value).collect();
    assert_eq!(runs, vec![3, 1, 2]);
}

#[test]
fn connectivity_degrades_as_time_passes_without_heartbeat() {
    let mut collector = FleetTelemetryCollector::new(FleetId { value: 1 });
    collector.ingest_node_heartbeat(NodeId { value: 1 }, at(0));
    let rank = |c: NodeConnectivity| match c {
        NodeConnectivity::Online => 0,
        NodeConnectivity::Stale => 1,
        NodeConnectivity::Offline => 2,
    };
    let mut last = 0;
    for seconds in [0, 10, 29, 30, 60, 119, 120, 500] {
        let now = rank(collector.snapshot(at(seconds)).nodes[0].connectivity);
        assert!(now >= last);
        last = now;
    }
    assert_eq!(last, 2);
}
