use splendor::clock::Timestamp;
use splendor::ids::{AgentId, RunId, StateNodeId, TenantId, TraceEventId};
use splendor::state::{
    SnapshotId, StateData, StateHandoff, StateHandoffAuthority, StateReference, StateReferenceMode, StateSnapshot,
};
use splendor::trace::{KernelRuntime, KernelRuntimeConfig, TraceError, TraceEvent, TraceEventKind, TraceSink, TraceStoreError};

fn uuid(value: u128) -> String {
    let h = format!("{:032x}", value);
    format!("{}-{}-{}-{}-{}", &h[0..8], &h[8..12], &h[12..16], &h[16..20], &h[20..32])
}


#[derive(Default)]
struct VecSink {
    events: Vec<TraceEvent>,
}

impl TraceSink for VecSink {
    fn record(&mut self, event: &TraceEvent) -> Result<(), TraceError> {
        self.events.push(event.clone());
        Ok(())
    }
}

struct RefusingSink;

impl TraceSink for RefusingSink {
    fn record(&mut self, _event: &TraceEvent) -> Result<(), TraceError> {
        Err(TraceError::Store(TraceStoreError::Backend("disk full".to_string())))
    }
}

fn authority(run: u128) -> StateHandoffAuthority {
    StateHandoffAuthority {
        work_order_id: 77,
        tenant_id: TenantId::from_u128(1),
        agent_id: AgentId::from_u128(2),
        run_id: RunId::from_u128(run),
    }
}

fn handoff(run: u128) -> StateHandoff {
    StateHandoff {
        schema_version: "splendor.state_handoff.v0".to_string(),
        handoff_id: "handoff-1".to_string(),
        mode: StateReferenceMode::SnapshotImport,
        authority: authority(run),
        source_instance_id: Some("source".to_string()),
        receiver_instance_id: Some("receiver".to_string()),
        previous_state_node_id: None,
        snapshot: StateSnapshot {
            snapshot_id: SnapshotId { value: 9 },
            node_id: StateNodeId { value: 4 },
            state: StateData { bytes: vec![1, 2, 3], content_type: None },
        },
        source_trace_id: None,
        created_at: Timestamp { unix_nanos: 0 },
    }
}

fn runtime<S: TraceSink>(sink: S, run: u128, initial_sequence: u64) -> KernelRuntime<S> {
    KernelRuntime::new(KernelRuntimeConfig { trace_sink: sink, run_id: RunId::from_u128(run), initial_sequence })
}

#[test]
fn exported_handoff_carries_its_trace_id() {
    let mut rt = runtime(VecSink::default(), 5, 3);
    let mut h = handoff(5);
    let event = rt.record_state_handoff_exported(&mut h).expect("export traced");
    assert_eq!(event.sequence, 3);
    assert_eq!(h.source_trace_id, Some(TraceEventId { run_id: RunId::from_u128(5), sequence: 3 }));
    match &event.kind {
        TraceEventKind::StateHandoffExported { handoff } => {
            assert_eq!(handoff.handoff_id, "handoff-1");
            assert_eq!(handoff.snapshot_id, SnapshotId { value: 9 });
            assert_eq!(handoff.source_instance_id.as_deref(), Some("source"));
            assert_eq!(handoff.receiver_state_node_id, None);
            assert_eq!(handoff.source_trace_id, None);
        }
        other => panic!("unexpected kind {other:?}"),
    }
    assert_eq!(rt.sink().events.len(), 1);
    assert_eq!(rt.next_sequence(), 4);
}

#[test]
fn handoff_of_another_run_is_refused_without_a_sequence() {
    let mut rt = runtime(VecSink::default(), 5, 0);
    let mut h = handoff(6);
    let error = rt.record_state_handoff_exported(&mut h).unwrap_err();
    assert_eq!(
        error,
        TraceError::HandoffRunMismatch { runtime_run_id: RunId::from_u128(5), handoff_run_id: RunId::from_u128(6) }
    );
    assert_eq!(h.source_trace_id, None);
    assert_eq!(rt.next_sequence(), 0);
    assert!(rt.sink().events.is_empty());
    assert_eq!(
        error.message(),
        format!("state handoff run mismatch: runtime {}, handoff {}", uuid(5u128), uuid(6u128))
    );

    let reference = StateReference {
        reference_id: "ref".to_string(),
        mode: StateReferenceMode::ReadOnlyReference,
        authority: authority(6),
        snapshot_id: SnapshotId { value: 1 },
        source_trace_id: None,
    };
    assert!(matches!(
        rt.record_read_only_state_referenced(&reference),
        Err(TraceError::HandoffRunMismatch { .. })
    ));
    assert!(matches!(
        rt.record_state_handoff_import_failed(&h, "bad".to_string()),
        Err(TraceError::HandoffRunMismatch { .. })
    ));
    assert_eq!(rt.next_sequence(), 0);
}

#[test]
fn import_success_and_failure_are_traced() {
    let mut rt = runtime(VecSink::default(), 5, 0);
    let h = handoff(5);
    let imported = rt.record_state_handoff_imported(&h, "node-12".to_string()).expect("import traced");
    match &imported.kind {
        TraceEventKind::StateHandoffImported { handoff } => {
            assert_eq!(handoff.receiver_state_node_id.as_deref(), Some("node-12"));
            assert_eq!(handoff.mode, StateReferenceMode::SnapshotImport);
        }
        other => panic!("unexpected kind {other:?}"),
    }
    let failed = rt.record_state_handoff_import_failed(&h, "snapshot missing".to_string()).expect("failure traced");
    match &failed.kind {
        TraceEventKind::StateHandoffImportFailed { handoff, reason } => {
            assert_eq!(reason, "snapshot missing");
            assert_eq!(handoff.receiver_state_node_id, None);
        }
        other => panic!("unexpected kind {other:?}"),
    }
    assert_eq!(failed.sequence, 1);
}

#[test]
fn read_only_reference_is_traced() {
    let mut rt = runtime(VecSink::default(), 5, 0);
    let reference = StateReference {
        reference_id: "ref-1".to_string(),
        mode: StateReferenceMode::ReadOnlyReference,
        authority: authority(5),
        snapshot_id: SnapshotId { value: 3 },
        source_trace_id: Some(TraceEventId { run_id: RunId::from_u128(8), sequence: 2 }),
    };
    let event = rt.record_read_only_state_referenced(&reference).expect("reference traced");
    match &event.kind {
        TraceEventKind::ReadOnlyStateReferenced { handoff } => {
            assert_eq!(handoff.handoff_id, "ref-1");
            assert_eq!(handoff.mode, StateReferenceMode::ReadOnlyReference);
            assert_eq!(handoff.snapshot_id, SnapshotId { value: 3 });
            assert_eq!(handoff.source_trace_id, Some(TraceEventId { run_id: RunId::from_u128(8), sequence: 2 }));
        }
        other => panic!("unexpected kind {other:?}"),
    }
}

#[test]
fn a_refusing_sink_leaves_the_handoff_unmarked() {
    let mut rt = runtime(RefusingSink, 5, 0);
    let mut h = handoff(5);
    assert_eq!(rt.record_state_handoff_exported(&mut h).unwrap_err(), TraceError::Store(TraceStoreError::Backend("disk full".to_string())));
    assert_eq!(h.source_trace_id, None);
    assert_eq!(rt.next_sequence(), 1);
}
