//! The static scope tree of a loaded trace: module instances containing
//! named, stably-identified signals, with dotted-path lookups.

use vstd::prelude::*;

use crate::strutil::{split_dots, split_on, str_eq, str_starts_with};

verus! {

/// One declared signal: its local name and its stable handle.
pub struct VarDecl {
    pub name: String,
    pub id: u64,
}

/// One module instance: its name, child instances, and declared signals.
pub struct ScopeNode {
    pub name: String,
    pub scopes: Vec<ScopeNode>,
    pub vars: Vec<VarDecl>,
}

/// The root of the hierarchy: the top-level module instances of a trace
/// header. Built once, before ingestion, and never mutated afterward.
pub struct ScopeTree {
    pub scopes: Vec<ScopeNode>,
}

/// The index of the first scope in `scopes` named `name`, searching from
/// position `i`.
pub open spec fn scope_index_named_from(scopes: Seq<ScopeNode>, name: Seq<char>, i: int) -> Option<
    int,
>
    decreases scopes.len() - i,
{
    if i < 0 || i >= scopes.len() {
        Option::None
    } else if scopes[i].name@ == name {
        Option::Some(i)
    } else {
        scope_index_named_from(scopes, name, i + 1)
    }
}

/// The index of the first scope in `scopes` named `name`.
pub open spec fn scope_index_named(scopes: Seq<ScopeNode>, name: Seq<char>) -> Option<int> {
    scope_index_named_from(scopes, name, 0)
}

/// The index of the first variable in `vars` named `name`, searching from
/// position `i`.
pub open spec fn var_index_named_from(vars: Seq<VarDecl>, name: Seq<char>, i: int) -> Option<int>
    decreases vars.len() - i,
{
    if i < 0 || i >= vars.len() {
        Option::None
    } else if vars[i].name@ == name {
        Option::Some(i)
    } else {
        var_index_named_from(vars, name, i + 1)
    }
}

/// The index of the first variable in `vars` named `name`.
pub open spec fn var_index_named(vars: Seq<VarDecl>, name: Seq<char>) -> Option<int> {
    var_index_named_from(vars, name, 0)
}

/// The scope reached from `scopes` by following `path`, segment by
/// segment; an empty path reaches nothing.
pub open spec fn spec_find_scope(scopes: Seq<ScopeNode>, path: Seq<Seq<char>>) -> Option<ScopeNode>
    decreases path.len(),
{
    if path.len() == 0 {
        Option::None
    } else {
        match scope_index_named(scopes, path[0]) {
            Option::None => Option::None,
            Option::Some(i) => if path.len() == 1 {
                Option::Some(scopes[i])
            } else {
                spec_find_scope(scopes[i].scopes@, path.skip(1))
            },
        }
    }
}

/// The variable reached from `scopes` by following `path`: all but the
/// last segment name scopes, the last names a variable.
pub open spec fn spec_find_var(scopes: Seq<ScopeNode>, path: Seq<Seq<char>>) -> Option<VarDecl>
    decreases path.len(),
{
    if path.len() == 0 {
        Option::None
    } else if path.len() == 1 {
        Option::None
    } else {
        match scope_index_named(scopes, path[0]) {
            Option::None => Option::None,
            Option::Some(i) => if path.len() == 2 {
                match var_index_named(scopes[i].vars@, path[1]) {
                    Option::None => Option::None,
                    Option::Some(j) => Option::Some(scopes[i].vars@[j]),
                }
            } else {
                spec_find_var(scopes[i].scopes@, path.skip(1))
            },
        }
    }
}

/// Finds the first scope in `scopes` named `name`.
fn find_named<'a>(scopes: &'a Vec<ScopeNode>, name: &str) -> (r: Option<&'a ScopeNode>)
    ensures
        match r {
            Option::Some(s) => scope_index_named(scopes@, name@) matches Option::Some(i) && *s
                == scopes@[i],
            Option::None => scope_index_named(scopes@, name@) is None,
        },
{
    let mut i: usize = 0;
    while i < scopes.len()
        invariant
            i <= scopes@.len(),
            scope_index_named(scopes@, name@) == scope_index_named_from(scopes@, name@, i as int),
        decreases scopes.len() - i,
    {
        if str_eq(scopes[i].name.as_str(), name) {
            return Option::Some(&scopes[i]);
        }
        i = i + 1;
    }
    Option::None
}

/// Finds the first variable in `vars` named `name`.
fn find_var_named<'a>(vars: &'a Vec<VarDecl>, name: &str) -> (r: Option<&'a VarDecl>)
    ensures
        match r {
            Option::Some(v) => var_index_named(vars@, name@) matches Option::Some(i) && *v
                == vars@[i],
            Option::None => var_index_named(vars@, name@) is None,
        },
{
    let mut i: usize = 0;
    while i < vars.len()
        invariant
            i <= vars@.len(),
            var_index_named(vars@, name@) == var_index_named_from(vars@, name@, i as int),
        decreases vars.len() - i,
    {
        if str_eq(vars[i].name.as_str(), name) {
            return Option::Some(&vars[i]);
        }
        i = i + 1;
    }
    Option::None
}

/// The views of a path's segments.
pub open spec fn path_views(path: Seq<String>) -> Seq<Seq<char>> {
    path.map_values(|p: String| p@)
}

impl ScopeTree {
    /// Follows `path` through the tree to a scope, if one exists there.
    pub fn find_scope<'a>(&'a self, path: &Vec<String>) -> (r: Option<&'a ScopeNode>)
        ensures
            match r {
                Option::Some(s) => spec_find_scope(self.scopes@, path_views(path@))
                    == Option::Some(*s),
                Option::None => spec_find_scope(self.scopes@, path_views(path@)) is None,
            },
    {
        let mut cur: &Vec<ScopeNode> = &self.scopes;
        let mut k: usize = 0;
        if path.len() == 0 {
            return Option::None;
        }
        proof {
            assert(path_views(path@).skip(0) =~= path_views(path@));
        }
        loop
            invariant
                k < path@.len() <= usize::MAX,
                spec_find_scope(self.scopes@, path_views(path@)) == spec_find_scope(
                    cur@,
                    path_views(path@).skip(k as int),
                ),
            decreases path@.len() - k,
        {
            proof {
                assert(path_views(path@).skip(k as int)[0] == path@[k as int]@);
                assert(path_views(path@).skip(k as int).skip(1) =~= path_views(path@).skip(
                    k + 1,
                ));
            }
            match find_named(cur, path[k].as_str()) {
                Option::None => {
                    return Option::None;
                },
                Option::Some(node) => {
                    if k + 1 == path.len() {
                        return Option::Some(node);
                    }
                    cur = &node.scopes;
                    k = k + 1;
                },
            }
        }
    }

    /// Whether a scope exists at `path`; existence probing only.
    pub fn scope_exists(&self, path: &Vec<String>) -> (r: bool)
        ensures
            r == (spec_find_scope(self.scopes@, path_views(path@)) is Some),
    {
        self.find_scope(path).is_some()
    }

    /// Follows `path` to a variable: scopes down to the last segment,
    /// which names a signal in the scope reached.
    pub fn find_var<'a>(&'a self, path: &Vec<String>) -> (r: Option<&'a VarDecl>)
        ensures
            match r {
                Option::Some(v) => spec_find_var(self.scopes@, path_views(path@)) == Option::Some(
                    *v,
                ),
                Option::None => spec_find_var(self.scopes@, path_views(path@)) is None,
            },
    {
        let mut cur: &Vec<ScopeNode> = &self.scopes;
        let mut k: usize = 0;
        if path.len() < 2 {
            return Option::None;
        }
        proof {
            assert(path_views(path@).skip(0) =~= path_views(path@));
        }
        loop
            invariant
                k + 2 <= path@.len() <= usize::MAX,
                spec_find_var(self.scopes@, path_views(path@)) == spec_find_var(
                    cur@,
                    path_views(path@).skip(k as int),
                ),
            decreases path@.len() - k,
        {
            proof {
                assert(path_views(path@).skip(k as int)[0] == path@[k as int]@);
                assert(path_views(path@).skip(k as int)[1] == path@[k + 1]@);
                assert(path_views(path@).skip(k as int).skip(1) =~= path_views(path@).skip(
                    k + 1,
                ));
            }
            match find_named(cur, path[k].as_str()) {
                Option::None => {
                    return Option::None;
                },
                Option::Some(node) => {
                    if k + 2 == path.len() {
                        return find_var_named(&node.vars, path[k + 1].as_str());
                    }
                    cur = &node.scopes;
                    k = k + 1;
                },
            }
        }
    }

    /// Follows a dotted path such as `top.sub.entries[0]` to a scope.
    pub fn find_scope_dotted<'a>(&'a self, path: &str) -> (r: Option<&'a ScopeNode>)
        ensures
            match r {
                Option::Some(s) => spec_find_scope(self.scopes@, split_on(path@, '.'))
                    == Option::Some(*s),
                Option::None => spec_find_scope(self.scopes@, split_on(path@, '.')) is None,
            },
    {
        let segments = split_dots(path);
        self.find_scope(&segments)
    }

    /// The name of the first top-level scope that does not carry the
    /// reserved simulator-internal `_` prefix: the base all dotted paths
    /// hang from.
    pub fn header_base(&self) -> (r: Option<String>)
        ensures
            match r {
                Option::Some(s) => spec_header_base(self.scopes@) == Option::Some(s@),
                Option::None => spec_header_base(self.scopes@) is None,
            },
    {
        let mut i: usize = 0;
        while i < self.scopes.len()
            invariant
                i <= self.scopes@.len(),
                spec_header_base(self.scopes@) == spec_header_base_from(self.scopes@, i as int),
            decreases self.scopes@.len() - i,
        {
            let is_internal = str_starts_with(self.scopes[i].name.as_str(), "_");
            proof {
                reveal_strlit("_");
                let nm = self.scopes@[i as int].name@;
                assert("_"@.len() == 1);
                if "_"@.is_prefix_of(nm) {
                    assert(nm.subrange(0, 1)[0] == nm[0]);
                    assert("_"@[0] == '_');
                }
                if internal_name(nm) {
                    assert(nm.subrange(0, 1) =~= "_"@);
                }
                assert(is_internal == internal_name(nm));
            }
            if !is_internal {
                let mut out = String::new();
                out.append(self.scopes[i].name.as_str());
                return Option::Some(out);
            }
            i = i + 1;
        }
        Option::None
    }
}

/// The base scope name of a header: the first top-level scope without
/// the reserved prefix. The caller guarantees one exists, as a
/// successful construction does.
pub fn get_header_base(header: &ScopeTree) -> (r: String)
    requires
        spec_header_base(header.scopes@) is Some,
    ensures
        Option::Some(r@) == spec_header_base(header.scopes@),
{
    match header.header_base() {
        Option::Some(b) => b,
        Option::None => {
            proof {
                assert(false);
            }
            String::new()
        },
    }
}

/// Whether `name` carries the reserved simulator-internal prefix.
pub open spec fn internal_name(name: Seq<char>) -> bool {
    name.len() >= 1 && name[0] == '_'
}

/// The name of the first top-level scope without the reserved prefix,
/// searching from position `i`.
pub open spec fn spec_header_base_from(scopes: Seq<ScopeNode>, i: int) -> Option<Seq<char>>
    decreases scopes.len() - i,
{
    if i < 0 || i >= scopes.len() {
        Option::None
    } else if !internal_name(scopes[i].name@) {
        Option::Some(scopes[i].name@)
    } else {
        spec_header_base_from(scopes, i + 1)
    }
}

/// The name of the first top-level scope without the reserved prefix.
pub open spec fn spec_header_base(scopes: Seq<ScopeNode>) -> Option<Seq<char>> {
    spec_header_base_from(scopes, 0)
}

} // verus!
