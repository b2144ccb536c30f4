use o3o_debugger::scope::{ScopeNode, ScopeTree, VarDecl};
use o3o_debugger::snapshots::{Snapshots, TraceEvent};
use o3o_debugger::structures::rob::ROBTable;
use o3o_debugger::structures::rs::RSTable;
use o3o_debugger::structures::{SelectedTab, Structures};
use o3o_debugger::values::Bit;

fn var(name: &str, id: u64) -> VarDecl {
    VarDecl { name: name.to_owned(), id }
}

fn scope(name: &str, scopes: Vec<ScopeNode>, vars: Vec<VarDecl>) -> ScopeNode {
    ScopeNode { name: name.to_owned(), scopes, vars }
}

fn entry(name: &str, id: u64) -> ScopeNode {
    scope(name, vec![], vec![var("valid", id)])
}

/// A test bench with one module that looks like a reservation station:
/// it carries the marker and three entry scopes.
fn rs_tree() -> ScopeTree {
    ScopeTree {
        scopes: vec![scope(
            "tb",
            vec![scope(
                "station",
                vec![entry("entries[0]", 20), entry("entries[1]", 21), entry("entries[2]", 22)],
                vec![var("dbg_this_is_rs", 10)],
            )],
            vec![var("clock", 1)],
        )],
    }
}

fn one_cycle() -> Vec<TraceEvent> {
    vec![
        TraceEvent::SetTime(1),
        TraceEvent::ScalarChange(1, Bit::V1),
        TraceEvent::SetTime(2),
        TraceEvent::ScalarChange(1, Bit::V0),
    ]
}

#[test]
fn marker_probe_discovers_extent() {
    let s = Snapshots::new(rs_tree(), &one_cycle(), 0, usize::MAX).unwrap();
    let rs = RSTable::new("tb.station", &s).expect("the marker is present");
    assert_eq!(rs.base, "tb.station");
    assert_eq!(rs.size, 3);
}

#[test]
fn absent_marker_rejects_the_scope() {
    let s = Snapshots::new(rs_tree(), &one_cycle(), 0, usize::MAX).unwrap();
    assert!(ROBTable::new("tb.station", &s).is_none());
    assert!(RSTable::new("tb.missing", &s).is_none());
}

#[test]
fn structures_walk_assigns_widgets_by_marker() {
    let s = Snapshots::new(rs_tree(), &one_cycle(), 0, usize::MAX).unwrap();
    let structures = Structures::new(&s);
    assert!(!structures.is_cpu);
    let rs = structures.rs.expect("the station module fits the rs shape");
    assert_eq!(rs.base, "tb.station");
    assert_eq!(rs.size, 3);
    assert!(structures.rob.is_none());
    assert!(structures.dcache.is_none());
}

#[test]
fn cpu_marker_claims_fixed_module_paths() {
    let cpu_scope = scope(
        "cpu0",
        vec![scope(
            "rob_module",
            vec![entry("entries[0]", 30), entry("entries[1]", 31)],
            vec![var("dbg_this_is_rob", 29)],
        )],
        vec![var("dbg_this_is_cpu", 28)],
    );
    let tree = ScopeTree {
        scopes: vec![scope("tb", vec![cpu_scope], vec![var("clock", 1)])],
    };
    let s = Snapshots::new(tree, &one_cycle(), 0, usize::MAX).unwrap();
    let structures = Structures::new(&s);
    assert!(structures.is_cpu);
    let rob = structures.rob.expect("the rob module sits at its fixed path");
    assert_eq!(rob.base, "tb.cpu0.rob_module");
    assert_eq!(rob.size, 2);
    assert!(structures.rs.is_none());
}

#[test]
fn tab_cycle_is_closed_in_both_directions() {
    let mut t = SelectedTab::RsRob;
    for _ in 0..4 {
        t = t.next();
    }
    assert_eq!(t, SelectedTab::RsRob);
    assert_eq!(SelectedTab::RsRob.previous(), SelectedTab::Caches);
    assert_eq!(SelectedTab::Caches.next(), SelectedTab::RsRob);
    assert_eq!(SelectedTab::BStack.next().previous(), SelectedTab::BStack);
}

#[test]
fn fixed_layout_view_constructs() {
    let _ = o3o_debugger::rs::RSTable::new();
}
