use o3o_debugger::scope::{ScopeNode, ScopeTree, VarDecl};
use o3o_debugger::var_index::VarIndex;

fn var(name: &str, id: u64) -> VarDecl {
    VarDecl { name: name.to_owned(), id }
}

fn scope(name: &str, scopes: Vec<ScopeNode>, vars: Vec<VarDecl>) -> ScopeNode {
    ScopeNode { name: name.to_owned(), scopes, vars }
}

fn design_tree() -> ScopeTree {
    ScopeTree {
        scopes: vec![scope(
            "tb",
            vec![scope(
                "dut",
                vec![
                    scope("entries[0]", vec![], vec![var("valid", 10), var("data", 11)]),
                    scope("entries[1]", vec![], vec![var("valid", 12)]),
                    scope("other", vec![], vec![var("ready", 13)]),
                ],
                vec![var("clock", 1)],
            )],
            vec![],
        )],
    }
}

#[test]
fn resolve_finds_exact_dotted_paths() {
    let index = VarIndex::from_header(&design_tree());
    assert!(index.get("tb.dut.entries[0].valid").is_some());
    assert_eq!(index.get("tb.dut.entries[0].valid"), Some(10));
    assert_eq!(index.get("tb.dut.entries[1].valid"), Some(12));
    assert_eq!(index.get("tb.dut.clock"), Some(1));
}

#[test]
fn resolve_misses_are_not_errors() {
    let index = VarIndex::from_header(&design_tree());
    assert!(index.get("tb.dut.entries[0].nonexistent").is_none());
    assert!(index.get("tb.dut.entries[2].valid").is_none());
    assert!(index.get("").is_none());
    assert!(index.get("valid").is_none());
}

#[test]
fn walk_registers_every_leaf() {
    let index = VarIndex::from_header(&design_tree());
    assert_eq!(index.entries.len(), 5);
    for path in
        ["tb.dut.clock", "tb.dut.entries[0].valid", "tb.dut.entries[0].data",
            "tb.dut.entries[1].valid", "tb.dut.other.ready"]
    {
        assert!(index.get(path).is_some(), "missing {path}");
    }
}

#[test]
fn walk_skips_reserved_top_scopes() {
    let tree = ScopeTree {
        scopes: vec![
            scope("_vcs_unit", vec![], vec![var("hidden", 99)]),
            scope("tb", vec![], vec![var("visible", 1)]),
        ],
    };
    let index = VarIndex::from_header(&tree);
    assert!(index.get("tb.visible").is_some());
    assert!(index.get("_vcs_unit.hidden").is_none());
}

#[test]
fn search_tolerates_partial_queries() {
    let index = VarIndex::from_header(&design_tree());
    let results = index.search("entrie");
    assert!(!results.is_empty(), "a near-miss query must surface candidates");
    assert!(
        results[0].contains("entries"),
        "the best-ranked result should contain the intended segment, got {:?}",
        results
    );
    for r in &results {
        assert!(index.get(r).is_some(), "search returned an unregistered path {r}");
    }
}

#[test]
fn search_finds_exact_segments_too() {
    let index = VarIndex::from_header(&design_tree());
    let results = index.search("ready");
    assert!(results.iter().any(|r| r == "tb.dut.other.ready"));
}

#[test]
fn search_is_deterministic_across_calls() {
    let index = VarIndex::from_header(&design_tree());
    let first = index.search("entrie");
    let second = index.search("entrie");
    assert_eq!(first, second);
    let third = index.search("valid");
    let fourth = index.search("valid");
    assert_eq!(third, fourth);
}
