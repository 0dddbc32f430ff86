use splendor::clock::Timestamp;
use splendor::daemon::TraceRecord;
use splendor::ids::{RunId, TraceEventId};
use splendor::trace::{
    check_stored_sequence, latest_stored_sequence, KernelRuntime, KernelRuntimeConfig, TraceError, TraceEvent,
    TraceEventKind, TraceIdentity, TraceStore, TraceStoreError, TraceStoreSink,
};
use std::collections::HashMap;

#[derive(Default)]
struct MapStore {
    runs: HashMap<u128, Vec<TraceRecord>>,
    skew: u64,
}

impl TraceStore for MapStore {
    fn append(&mut self, run_id: &RunId, event: &TraceEvent) -> Result<u64, TraceStoreError> {
        let records = self.runs.entry(run_id.value).or_default();
        let sequence = records.len() as u64 + self.skew;
        records.push(TraceRecord { run_id: *run_id, sequence, event: event.clone() });
        Ok(sequence)
    }

    fn read(&self, run_id: &RunId) -> Result<Vec<TraceRecord>, TraceStoreError> {
        self.runs.get(&run_id.value).cloned().ok_or(TraceStoreError::RunNotFound)
    }
}

fn event(run: RunId, sequence: u64) -> TraceEvent {
    TraceEvent {
        trace_event_id: TraceEventId::from_run_sequence(&run, sequence),
        run_id: run,
        sequence,
        timestamp: Timestamp { unix_nanos: 0 },
        identity: TraceIdentity::for_run(run),
        kind: TraceEventKind::RunStarted,
    }
}

#[test]
fn latest_sequence_comes_from_the_last_record() {
    let run = RunId::from_u128(3);
    let records = vec![
        TraceRecord { run_id: run, sequence: 0, event: event(run, 0) },
        TraceRecord { run_id: run, sequence: 1, event: event(run, 1) },
    ];
    assert_eq!(latest_stored_sequence(Ok(records)), Ok(Some(1)));
    assert_eq!(latest_stored_sequence(Ok(Vec::new())), Ok(None));
    assert_eq!(latest_stored_sequence(Err(TraceStoreError::RunNotFound)), Ok(None));
    assert_eq!(
        latest_stored_sequence(Err(TraceStoreError::Poisoned)),
        Err(TraceError::Store(TraceStoreError::Poisoned))
    );
}

#[test]
fn a_store_must_keep_the_runtime_numbering() {
    assert_eq!(check_stored_sequence(4, Ok(4)), Ok(()));
    assert_eq!(check_stored_sequence(4, Ok(6)), Err(TraceError::SequenceMismatch { expected: 4, actual: 6 }));
    assert_eq!(
        check_stored_sequence(4, Err(TraceStoreError::Backend("full".to_string()))),
        Err(TraceError::Store(TraceStoreError::Backend("full".to_string())))
    );
    assert_eq!(TraceError::Store(TraceStoreError::Poisoned).message(), "trace store error: trace store lock poisoned");
}

#[test]
fn a_runtime_over_a_store_sink_persists_and_resumes() {
    let run = RunId::from_u128(8);
    let sink = TraceStoreSink::new(run, MapStore::default());
    assert_eq!(sink.run_id(), run);
    assert_eq!(sink.latest_sequence(), Ok(None));
    let mut runtime = KernelRuntime::new(KernelRuntimeConfig { trace_sink: sink, run_id: run, initial_sequence: 0 });
    runtime.record_event(TraceEventKind::RunStarted).expect("stored");
    runtime.record_event(TraceEventKind::LoopTickStarted { tick_id: 1 }).expect("stored");
    assert_eq!(runtime.sink().latest_sequence(), Ok(Some(1)));
    let stored = runtime.sink().store().read(&run).expect("records");
    assert_eq!(stored.iter().map(|r| r.sequence).collect::<Vec<_>>(), vec![0, 1]);
}

#[test]
fn a_store_that_renumbers_is_refused() {
    let run = RunId::from_u128(8);
    let sink = TraceStoreSink::new(run, MapStore { runs: HashMap::new(), skew: 5 });
    let mut runtime = KernelRuntime::new(KernelRuntimeConfig { trace_sink: sink, run_id: run, initial_sequence: 0 });
    assert_eq!(
        runtime.record_event(TraceEventKind::RunStarted).unwrap_err(),
        TraceError::SequenceMismatch { expected: 0, actual: 5 }
    );
}

#[test]
fn runtime_over_a_trace_store_numbers_on_after_stored_events() {
    let run = RunId::from_u128(8);
    let mut store = MapStore::default();
    store.append(&run, &event(run, 0)).expect("stored");
    store.append(&run, &event(run, 1)).expect("stored");
    let mut runtime = KernelRuntime::with_trace_store(store, Some(run), RunId::from_u128(99)).expect("runtime");
    assert_eq!(runtime.run_id(), run);
    assert_eq!(runtime.next_sequence(), 2);
    let recorded = runtime.record_event(TraceEventKind::RunStarted).expect("recorded");
    assert_eq!(recorded.sequence, 2);

    let fresh = KernelRuntime::with_trace_store(MapStore::default(), None, RunId::from_u128(99)).expect("runtime");
    assert_eq!(fresh.run_id(), RunId::from_u128(99));
    assert_eq!(fresh.next_sequence(), 0);
}
