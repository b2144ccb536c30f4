use o3o_debugger::scope::{ScopeNode, ScopeTree, VarDecl};
use o3o_debugger::snapshots::{ingest, ConstructionError, Snapshot, Snapshots, TraceEvent};
use o3o_debugger::values::Bit;

const CLOCK: u64 = 1;
const A: u64 = 2;
const B: u64 = 3;

fn var(name: &str, id: u64) -> VarDecl {
    VarDecl { name: name.to_owned(), id }
}

fn scope(name: &str, scopes: Vec<ScopeNode>, vars: Vec<VarDecl>) -> ScopeNode {
    ScopeNode { name: name.to_owned(), scopes, vars }
}

fn clocked_tree() -> ScopeTree {
    ScopeTree {
        scopes: vec![scope(
            "tb",
            vec![scope("dut", vec![], vec![var("a", A), var("b", B)])],
            vec![var("clock", CLOCK)],
        )],
    }
}

fn cycle_events(cycles: u64) -> Vec<TraceEvent> {
    let mut events = Vec::new();
    let mut t = 1;
    for _ in 0..cycles {
        events.push(TraceEvent::SetTime(t));
        events.push(TraceEvent::ScalarChange(CLOCK, Bit::V1));
        events.push(TraceEvent::SetTime(t + 1));
        events.push(TraceEvent::ScalarChange(CLOCK, Bit::V0));
        t += 2;
    }
    events
}

fn all_snapshots(shots: Vec<Snapshot>) -> Vec<(u64, usize)> {
    shots.iter().map(|s| (s.time, s.clock_count)).collect()
}

#[test]
fn empty_event_stream_is_a_construction_error() {
    let ids = vec![A, B];
    match ingest(&Vec::new(), &ids, CLOCK, 0, usize::MAX) {
        Err(ConstructionError::EmptyEventStream) => {}
        _ => panic!("an empty stream must fail construction"),
    }
    match Snapshots::new(clocked_tree(), &Vec::new(), 0, usize::MAX) {
        Err(ConstructionError::EmptyEventStream) => {}
        _ => panic!("an empty stream must fail the whole load"),
    }
}

#[test]
fn clockless_trace_stays_at_cycle_zero() {
    // the header has no `clock` variable, so the sentinel clock matches
    // no event and the whole trace is one logical cycle
    let tree = ScopeTree {
        scopes: vec![scope("tb", vec![scope("dut", vec![], vec![var("a", A)])], vec![])],
    };
    let mut events = Vec::new();
    events.push(TraceEvent::SetTime(1));
    events.push(TraceEvent::ScalarChange(A, Bit::V1));
    events.push(TraceEvent::SetTime(2));
    events.push(TraceEvent::ScalarChange(A, Bit::V0));
    events.push(TraceEvent::SetTime(3));
    let mut s = Snapshots::new(tree, &events, 0, usize::MAX).unwrap();
    s.go_to_start();
    loop {
        assert_eq!(s.get().unwrap().clock_count, 0);
        if !s.advance() {
            break;
        }
    }
}

#[test]
fn window_bounds_committed_cycle_counts() {
    let ids = vec![A, B];
    let shots = ingest(&cycle_events(40), &ids, CLOCK, 5, 10).unwrap();
    let summary = all_snapshots(shots);
    assert!(!summary.is_empty());
    for (_, count) in &summary {
        assert!(*count <= 15, "snapshot beyond the window: cycle {count}");
    }
    assert!(summary[0].1 >= 5, "first snapshot before the start cycle");
}

#[test]
fn window_exceeded_commit_ends_ingestion() {
    let ids = vec![A, B];
    let shots = ingest(&cycle_events(10), &ids, CLOCK, 0, 2).unwrap();
    let summary = all_snapshots(shots);
    // counts rise to the limit and never past it, and exactly one
    // window-exceeded commit closes the history
    assert_eq!(summary.iter().filter(|(_, c)| *c > 2).count(), 0);
    assert_eq!(summary.last().unwrap().1, 2);
}

#[test]
fn terminal_commit_keeps_pre_edge_clock_value() {
    let ids = vec![A, B];
    let shots = ingest(&cycle_events(10), &ids, CLOCK, 0, 2).unwrap();
    // the edge that exceeds the window is not applied to the committed
    // state: the clock still shows its value from before that edge
    let last = shots.last().unwrap();
    assert_eq!(last.value_of(CLOCK).unwrap().as_binary(), "0");
}

#[test]
fn stream_ending_mid_cycle_commits_partial_state() {
    let ids = vec![A];
    let mut events = cycle_events(1);
    events.push(TraceEvent::SetTime(10));
    events.push(TraceEvent::ScalarChange(A, Bit::V1));
    // no further time boundary: the tail is still committed
    let shots = ingest(&events, &ids, CLOCK, 0, usize::MAX).unwrap();
    let last = shots.last().unwrap();
    assert_eq!(last.time, 10);
    assert_eq!(last.value_of(A).unwrap().as_binary(), "1");
}

#[test]
fn diffs_between_consecutive_snapshots_are_exactly_the_changes() {
    let ids = vec![A, B];
    let mut events = Vec::new();
    events.push(TraceEvent::SetTime(1));
    events.push(TraceEvent::ScalarChange(A, Bit::V1));
    events.push(TraceEvent::ScalarChange(B, Bit::V0));
    events.push(TraceEvent::SetTime(2));
    // only B changes between the first and second snapshot
    events.push(TraceEvent::ScalarChange(B, Bit::V1));
    events.push(TraceEvent::SetTime(3));
    let shots = ingest(&events, &ids, CLOCK, 0, usize::MAX).unwrap();
    assert_eq!(shots.len(), 3);
    let a0 = shots[0].value_of(A).unwrap().as_binary();
    let a1 = shots[1].value_of(A).unwrap().as_binary();
    let b0 = shots[0].value_of(B).unwrap().as_binary();
    let b1 = shots[1].value_of(B).unwrap().as_binary();
    assert_eq!(a0, a1, "untouched variable must not differ");
    assert_ne!(b0, b1, "changed variable must differ");
}

#[test]
fn every_known_variable_has_an_entry_in_every_snapshot() {
    let ids = vec![A, B];
    let shots = ingest(&cycle_events(2), &ids, CLOCK, 0, usize::MAX).unwrap();
    for shot in &shots {
        assert!(shot.value_of(A).is_some());
        assert!(shot.value_of(B).is_some());
    }
    // a variable never touched by an event stays at the unknown default
    assert_eq!(shots[0].value_of(B).unwrap().as_binary(), "x");
}

#[test]
fn vector_changes_update_the_working_snapshot() {
    let ids = vec![A];
    let mut events = Vec::new();
    events.push(TraceEvent::SetTime(1));
    events.push(TraceEvent::VectorChange(A, vec![Bit::V1, Bit::V0, Bit::V1]));
    events.push(TraceEvent::SetTime(2));
    let shots = ingest(&events, &ids, CLOCK, 0, usize::MAX).unwrap();
    assert_eq!(shots[0].value_of(A).unwrap().as_binary(), "101");
}

#[test]
fn incremental_ingestor_matches_batch_ingest() {
    let ids = vec![A, B];
    let events = cycle_events(6);
    let batch = ingest(&events, &ids, CLOCK, 0, 3).unwrap();

    let mut ing = o3o_debugger::snapshots::Ingestor::new(&ids, CLOCK, 0, 3);
    for event in &events {
        if ing.is_done() {
            break;
        }
        ing.step(event);
    }
    ing.finish();

    assert_eq!(ing.shots.len(), batch.len());
    for (a, b) in ing.shots.iter().zip(batch.iter()) {
        assert_eq!(a.time, b.time);
        assert_eq!(a.clock_count, b.clock_count);
    }
}
