//! The hierarchical variable index: dotted path to stable handle, built by
//! one depth-first walk of the scope tree, with an approximate-search
//! index over the paths for autocomplete.

use vstd::prelude::*;

use crate::scope::{ScopeNode, ScopeTree};
use crate::search_engine::{engine_hits, engine_insert, engine_new, engine_search, index_ids};
use crate::strutil::str_eq;

verus! {

/// The path-to-handle index of one loaded trace.
pub struct VarIndex {
    /// Registered paths with their handles, in registration order.
    pub entries: Vec<(String, u64)>,
    /// The approximate-search index; its keys are positions in `entries`.
    pub engine: simsearch::Index<u64>,
}

/// The views of the registered entries.
pub open spec fn entry_views(entries: Seq<(String, u64)>) -> Seq<(Seq<char>, u64)> {
    entries.map_values(|p: (String, u64)| (p.0@, p.1))
}

/// The entries one scope's own variables contribute under `prefix`.
pub open spec fn var_entries(prefix: Seq<char>, vars: Seq<crate::scope::VarDecl>) -> Seq<
    (Seq<char>, u64),
> {
    vars.map_values(|v: crate::scope::VarDecl| (prefix + seq!['.'] + v.name@, v.id))
}

/// The entries of the whole subtree rooted at `node`, whose full dotted
/// path is `prefix`: first the scope's own variables in declaration
/// order, then the child scopes, last child first.
pub open spec fn walk_node(prefix: Seq<char>, node: ScopeNode) -> Seq<(Seq<char>, u64)>
    decreases node, 1int,
{
    var_entries(prefix, node.vars@) + walk_rev(prefix, node.scopes@, node.scopes@.len() as int)
}

/// The entries of the children `scopes[..i]` of a scope at `prefix`,
/// last child first.
pub open spec fn walk_rev(prefix: Seq<char>, scopes: Seq<ScopeNode>, i: int) -> Seq<
    (Seq<char>, u64),
>
    decreases scopes, 0int, i,
{
    if i <= 0 || i > scopes.len() {
        Seq::empty()
    } else {
        walk_node(prefix + seq!['.'] + scopes[i - 1].name@, scopes[i - 1]) + walk_rev(
            prefix,
            scopes,
            i - 1,
        )
    }
}

/// Whether a top-level scope is reserved simulator-internal state that
/// the walk skips.
pub open spec fn vcs_internal(name: Seq<char>) -> bool {
    seq!['_', 'v', 'c', 's'].is_prefix_of(name)
}

/// The entries of the whole tree: top-level scopes `scopes[..i]`, last
/// first, reserved ones skipped.
pub open spec fn walk_tree(scopes: Seq<ScopeNode>, i: int) -> Seq<(Seq<char>, u64)>
    decreases scopes, 0int, i,
{
    if i <= 0 || i > scopes.len() {
        Seq::empty()
    } else {
        (if vcs_internal(scopes[i - 1].name@) {
            Seq::empty()
        } else {
            walk_node(scopes[i - 1].name@, scopes[i - 1])
        }) + walk_tree(scopes, i - 1)
    }
}

/// The handle registered under `q`: of entries sharing a path, the last
/// registered wins.
pub open spec fn spec_lookup(entries: Seq<(Seq<char>, u64)>, q: Seq<char>) -> Option<u64>
    decreases entries.len(),
{
    if entries.len() == 0 {
        Option::None
    } else if entries.last().0 == q {
        Option::Some(entries.last().1)
    } else {
        spec_lookup(entries.drop_last(), q)
    }
}

impl VarIndex {
    /// The index is well formed when the search keys are exactly the
    /// entry positions.
    pub open spec fn wf(self) -> bool {
        index_ids(self.engine) == Set::new(|i: u64| (i as int) < self.entries@.len())
    }

    /// Builds the index by one depth-first walk of the scope tree; each
    /// leaf registers its fully qualified dotted path.
    pub fn from_header(tree: &ScopeTree) -> (r: VarIndex)
        ensures
            r.wf(),
            entry_views(r.entries@) == walk_tree(tree.scopes@, tree.scopes@.len() as int),
    {
        let mut entries: Vec<(String, u64)> = Vec::new();
        let mut engine = engine_new();
        proof {
            assert(index_ids(engine) =~= Set::new(|i: u64| (i as int) < entries@.len()));
            assert(entry_views(entries@) =~= Seq::<(Seq<char>, u64)>::empty());
        }
        let mut j: usize = tree.scopes.len();
        while j > 0
            invariant
                j <= tree.scopes@.len(),
                index_ids(engine) == Set::new(|i: u64| (i as int) < entries@.len()),
                entry_views(entries@) + walk_tree(tree.scopes@, j as int) == walk_tree(
                    tree.scopes@,
                    tree.scopes@.len() as int,
                ),
            decreases j,
        {
            j = j - 1;
            let name = &tree.scopes[j].name;
            let is_internal = crate::strutil::str_starts_with(name.as_str(), "_vcs");
            proof {
                reveal_strlit("_vcs");
                assert("_vcs"@ =~= seq!['_', 'v', 'c', 's']);
            }
            if !is_internal {
                let ghost before = entry_views(entries@);
                let prefix = clone_string(name);
                walk_node_exec(&prefix, &tree.scopes[j], &mut entries, &mut engine);
                proof {
                    assert(entry_views(entries@) + walk_tree(tree.scopes@, j as int) =~= before
                        + walk_node(tree.scopes@[j as int].name@, tree.scopes@[j as int])
                        + walk_tree(tree.scopes@, j as int));
                    assert(before + walk_node(tree.scopes@[j as int].name@, tree.scopes@[j as int])
                        + walk_tree(tree.scopes@, j as int) =~= before + walk_tree(
                        tree.scopes@,
                        j + 1,
                    ));
                }
            } else {
                proof {
                    assert(entry_views(entries@) + walk_tree(tree.scopes@, j as int)
                        =~= entry_views(entries@) + walk_tree(tree.scopes@, j + 1));
                }
            }
        }
        proof {
            assert(walk_tree(tree.scopes@, 0) =~= Seq::<(Seq<char>, u64)>::empty());
            assert(entry_views(entries@) + walk_tree(tree.scopes@, 0) =~= entry_views(entries@));
        }
        VarIndex { entries, engine }
    }

    /// Resolves an exact dotted path to its handle; an absent path is a
    /// miss, never an error.
    pub fn get(&self, query: &str) -> (r: Option<u64>)
        ensures
            r == spec_lookup(entry_views(self.entries@), query@),
    {
        let mut i: usize = self.entries.len();
        proof {
            assert(entry_views(self.entries@).take(self.entries@.len() as int) =~= entry_views(
                self.entries@,
            ));
        }
        while i > 0
            invariant
                i <= self.entries@.len(),
                spec_lookup(entry_views(self.entries@), query@) == spec_lookup(
                    entry_views(self.entries@).take(i as int),
                    query@,
                ),
            decreases i,
        {
            i = i - 1;
            proof {
                assert(entry_views(self.entries@).take(i + 1).last() == entry_views(
                    self.entries@,
                )[i as int]);
                assert(entry_views(self.entries@).take(i + 1).drop_last() =~= entry_views(
                    self.entries@,
                ).take(i as int));
            }
            if str_eq(self.entries[i].0.as_str(), query) {
                return Option::Some(self.entries[i].1);
            }
        }
        proof {
            assert(entry_views(self.entries@).take(0) =~= Seq::<(Seq<char>, u64)>::empty());
        }
        Option::None
    }

    /// Ranked approximate search: exactly the engine's hits for the
    /// query, each mapped to its entry's registered path, in the
    /// engine's order — so repeated calls on one index agree.
    pub fn search(&self, query: &str) -> (r: Vec<String>)
        requires
            self.wf(),
        ensures
            ({
                let hits = engine_hits(self.engine, query@);
                &&& r@.len() == hits.len()
                &&& forall|i: int|
                    0 <= i < r@.len() ==> (#[trigger] hits[i] as int) < self.entries@.len()
                        && r@[i]@ == entry_views(self.entries@)[hits[i] as int].0
            }),
    {
        let hits = engine_search(&self.engine, query);
        let ghost hit_seq = engine_hits(self.engine, query@);
        let mut out: Vec<String> = Vec::new();
        let mut i: usize = 0;
        while i < hits.len()
            invariant
                i <= hits@.len(),
                self.wf(),
                hits@ == hit_seq,
                hit_seq == engine_hits(self.engine, query@),
                forall|k: int| 0 <= k < hits@.len() ==> index_ids(self.engine).contains(hits@[k]),
                out@.len() == i,
                forall|k: int|
                    0 <= k < i ==> (#[trigger] hit_seq[k] as int) < self.entries@.len()
                        && out@[k]@ == entry_views(self.entries@)[hit_seq[k] as int].0,
            decreases hits.len() - i,
        {
            let id = hits[i];
            proof {
                assert(index_ids(self.engine).contains(hits@[i as int]));
                assert((hit_seq[i as int] as int) < self.entries@.len());
            }
            let entries_len = self.entries.len();
            proof {
                assert(id == hit_seq[i as int]);
                assert(self.entries@.len() == entries_len);
                assert(id as int <= usize::MAX as int);
            }
            let pos = id as usize;
            let path = clone_string(&self.entries[pos].0);
            proof {
                assert(pos as int == hit_seq[i as int] as int);
                assert(entry_views(self.entries@)[pos as int].0 == self.entries@[pos as int].0@);
            }
            out.push(path);
            proof {
                assert(out@[i as int]@ == entry_views(self.entries@)[hit_seq[i as int] as int].0);
            }
            i = i + 1;
        }
        out
    }
}

/// A copy of a string with the same characters.
pub fn clone_string(s: &String) -> (r: String)
    ensures
        r@ == s@,
{
    let mut out = String::new();
    out.append(s.as_str());
    out
}

/// Registers every variable of the subtree rooted at `node` (whose full
/// dotted path is `prefix`): its own variables first, then the children,
/// last child first.
fn walk_node_exec(
    prefix: &String,
    node: &ScopeNode,
    entries: &mut Vec<(String, u64)>,
    engine: &mut simsearch::Index<u64>,
)
    requires
        index_ids(*old(engine)) == Set::new(|i: u64| (i as int) < old(entries)@.len()),
    ensures
        index_ids(*final(engine)) == Set::new(
            |i: u64| (i as int) < final(entries)@.len(),
        ),
        entry_views(final(entries)@) == entry_views(old(entries)@) + walk_node(prefix@, *node),
    decreases *node,
{
    proof {
        reveal_strlit(".");
        assert("."@ =~= seq!['.']);
    }
    let mut i: usize = 0;
    while i < node.vars.len()
        invariant
            i <= node.vars@.len(),
            index_ids(*engine) == Set::new(|k: u64| (k as int) < entries@.len()),
            entry_views(entries@) == entry_views(old(entries)@) + var_entries(
                prefix@,
                node.vars@.take(i as int),
            ),
        decreases node.vars.len() - i,
    {
        proof {
            reveal_strlit(".");
            assert("."@ =~= seq!['.']);
        }
        let mut path = clone_string(prefix);
        path.append(".");
        path.append(node.vars[i].name.as_str());
        let ghost old_ids = index_ids(*engine);
        let id = entries.len() as u64;
        engine_insert(engine, id, path.as_str());
        let ghost old_entry_views = entry_views(entries@);
        entries.push((path, node.vars[i].id));
        proof {
            assert(index_ids(*engine) =~= Set::new(|k: u64| (k as int) < entries@.len()));
            assert(entry_views(entries@) =~= old_entry_views.push(
                (prefix@ + seq!['.'] + node.vars@[i as int].name@, node.vars@[i as int].id),
            ));
            assert(var_entries(prefix@, node.vars@.take(i + 1)) =~= var_entries(
                prefix@,
                node.vars@.take(i as int),
            ).push((prefix@ + seq!['.'] + node.vars@[i as int].name@, node.vars@[i as int].id)));
            assert(entry_views(entries@) =~= entry_views(old(entries)@) + var_entries(
                prefix@,
                node.vars@.take(i + 1),
            ));
        }
        i = i + 1;
    }
    proof {
        assert(node.vars@.take(node.vars@.len() as int) =~= node.vars@);
        assert(var_entries(prefix@, node.vars@.take(node.vars@.len() as int)) =~= var_entries(
            prefix@,
            node.vars@,
        ));
    }
    let mut j: usize = node.scopes.len();
    while j > 0
        invariant
            j <= node.scopes@.len(),
            index_ids(*engine) == Set::new(|k: u64| (k as int) < entries@.len()),
            entry_views(entries@) + walk_rev(prefix@, node.scopes@, j as int) == entry_views(
                old(entries)@,
            ) + walk_node(prefix@, *node),
        decreases j,
    {
        j = j - 1;
        proof {
            reveal_strlit(".");
            assert("."@ =~= seq!['.']);
            assert(decreases_to!(*node => node.scopes@[j as int]));
        }
        let mut child_prefix = clone_string(prefix);
        child_prefix.append(".");
        child_prefix.append(node.scopes[j].name.as_str());
        let ghost before = entry_views(entries@);
        walk_node_exec(&child_prefix, &node.scopes[j], entries, engine);
        proof {
            let child = node.scopes@[j as int];
            assert(entry_views(entries@) + walk_rev(prefix@, node.scopes@, j as int) =~= before
                + walk_node(prefix@ + seq!['.'] + child.name@, child) + walk_rev(
                prefix@,
                node.scopes@,
                j as int,
            ));
            assert(before + walk_node(
                prefix@ + seq!['.'] + node.scopes@[j as int].name@,
                node.scopes@[j as int],
            ) + walk_rev(prefix@, node.scopes@, j as int) =~= before + walk_rev(
                prefix@,
                node.scopes@,
                j + 1,
            ));
        }
    }
    proof {
        assert(walk_rev(prefix@, node.scopes@, 0) =~= Seq::<(Seq<char>, u64)>::empty());
        assert(entry_views(entries@) + walk_rev(prefix@, node.scopes@, 0) =~= entry_views(
            entries@,
        ));
    }
}

} // verus!
