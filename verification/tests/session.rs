use o3o_debugger::scope::{ScopeNode, ScopeTree, VarDecl};
use o3o_debugger::snapshots::{ConstructionError, Snapshots, TraceEvent};
use o3o_debugger::values::Bit;

const CLOCK: u64 = 1;
const A: u64 = 2;
const B: u64 = 3;

fn var(name: &str, id: u64) -> VarDecl {
    VarDecl { name: name.to_owned(), id }
}

fn scope(name: &str, scopes: Vec<ScopeNode>, vars: Vec<VarDecl>) -> ScopeNode {
    ScopeNode { name: name.to_owned(), scopes, vars }
}

fn clocked_tree() -> ScopeTree {
    ScopeTree {
        scopes: vec![scope(
            "tb",
            vec![scope("dut", vec![], vec![var("a", A), var("b", B)])],
            vec![var("clock", CLOCK)],
        )],
    }
}

/// A trace of `cycles` full clock periods, one timestep each for the
/// rising and falling edge.
fn clocked_events(cycles: u64) -> Vec<TraceEvent> {
    let mut events = Vec::new();
    let mut t = 1;
    for _ in 0..cycles {
        events.push(TraceEvent::SetTime(t));
        events.push(TraceEvent::ScalarChange(CLOCK, Bit::V1));
        events.push(TraceEvent::SetTime(t + 1));
        events.push(TraceEvent::ScalarChange(CLOCK, Bit::V0));
        t += 2;
    }
    events
}

fn session(cycles: u64) -> Snapshots {
    Snapshots::new(clocked_tree(), &clocked_events(cycles), 0, usize::MAX).unwrap()
}

fn current_time(s: &Snapshots) -> u64 {
    s.get().unwrap().time
}

#[test]
fn cursor_starts_on_last_snapshot() {
    let mut s = session(3);
    let end_time = current_time(&s);
    assert!(!s.advance());
    assert_eq!(current_time(&s), end_time);
}

#[test]
fn single_steps_saturate_at_boundaries() {
    let mut s = session(3);
    s.go_to_start();
    let start_time = current_time(&s);
    assert!(!s.retreat());
    assert_eq!(current_time(&s), start_time);
    assert!(s.advance());
    assert!(s.retreat());
    assert_eq!(current_time(&s), start_time);
    // hammer the boundaries; the cursor always lands on a valid snapshot
    for _ in 0..20 {
        s.retreat();
    }
    assert!(s.get().is_some());
    for _ in 0..20 {
        s.advance();
    }
    assert!(s.get().is_some());
    assert_eq!(current_time(&s), {
        s.go_to_end();
        current_time(&s)
    });
}

#[test]
fn step_n_round_trip_restores_position() {
    let mut s = session(4);
    s.go_to_start();
    assert!(s.advance_n(2));
    let mid_time = current_time(&s);
    assert!(s.advance_n(2));
    assert!(s.retreat_n(2));
    assert_eq!(current_time(&s), mid_time);
}

#[test]
fn step_n_keeps_partial_movement_at_boundary() {
    let mut s = session(2);
    s.go_to_end();
    let end_time = current_time(&s);
    // asking for far more than the history holds moves to the start and
    // reports the full distance was not covered
    assert!(!s.retreat_n(1000));
    s.go_to_start();
    let start_time = current_time(&s);
    assert!(!s.advance_n(1000));
    assert_eq!(current_time(&s), end_time);
    s.go_to_start();
    assert_eq!(current_time(&s), start_time);
}

#[test]
fn jumps_land_on_first_and_last_from_any_position() {
    let mut s = session(4);
    s.advance_n(0);
    s.retreat_n(2);
    s.go_to_start();
    let start_time = current_time(&s);
    s.go_to_end();
    let end_time = current_time(&s);
    assert!(start_time < end_time);
    s.retreat();
    s.go_to_start();
    assert_eq!(current_time(&s), start_time);
    s.go_to_end();
    assert_eq!(current_time(&s), end_time);
}

#[test]
fn get_var_reads_current_snapshot() {
    let mut events = clocked_events(2);
    events.push(TraceEvent::SetTime(100));
    events.push(TraceEvent::ScalarChange(A, Bit::V1));
    events.push(TraceEvent::SetTime(101));
    let mut s = Snapshots::new(clocked_tree(), &events, 0, usize::MAX).unwrap();
    s.go_to_end();
    assert_eq!(s.get_var("tb.dut.a").unwrap().as_binary(), "1");
    // before the change the variable still held its unknown default
    s.go_to_start();
    assert_eq!(s.get_var("tb.dut.a").unwrap().as_binary(), "x");
    assert!(s.get_var("tb.dut.nonexistent").is_none());
}

#[test]
fn scope_lookup_probes_existence_only() {
    let s = session(1);
    assert!(s.get_scope("tb").is_some());
    assert!(s.get_scope("tb.dut").is_some());
    assert!(s.get_scope("tb.dut.missing").is_none());
    assert_eq!(s.get_base(), "tb");
}

#[test]
fn base_scope_skips_reserved_names() {
    let tree = ScopeTree {
        scopes: vec![
            scope("_vcs_internal", vec![], vec![]),
            scope("tb", vec![], vec![var("clock", CLOCK)]),
        ],
    };
    let events = clocked_events(1);
    let s = Snapshots::new(tree, &events, 0, usize::MAX).unwrap();
    assert_eq!(s.get_base(), "tb");
}

#[test]
fn header_without_base_scope_fails() {
    let tree = ScopeTree { scopes: vec![scope("_only_internal", vec![], vec![])] };
    let events = clocked_events(1);
    match Snapshots::new(tree, &events, 0, usize::MAX) {
        Err(ConstructionError::MissingTopScope) => {}
        _ => panic!("a header without a base scope must be rejected"),
    }
}

#[test]
fn autocomplete_returns_registered_paths_consistently() {
    let s = session(2);
    let first = s.autocomplete_var("dut");
    let second = s.autocomplete_var("dut");
    assert_eq!(first, second);
    assert!(!first.is_empty());
    for path in &first {
        assert!(s.get_var(path).is_some(), "autocomplete returned unregistered path {path}");
    }
}
