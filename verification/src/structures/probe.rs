//! Structural discovery primitives: marker-variable probing and array
//! extent counting over the scope tree, the protocol widgets use to find
//! out which hardware structure a scope models and how large it is.

use vstd::prelude::*;

use crate::numerals::{dec_text, u64_to_dec};
use crate::scope::spec_find_scope;
use crate::snapshots::Snapshots;
use crate::strutil::split_on;
use crate::var_index::spec_lookup;

verus! {

/// `base.name`.
pub open spec fn dotted(base: Seq<char>, name: Seq<char>) -> Seq<char> {
    base + seq!['.'] + name
}

/// `prefix[i]suffix`.
pub open spec fn indexed(prefix: Seq<char>, i: nat, suffix: Seq<char>) -> Seq<char> {
    prefix + seq!['['] + dec_text(i) + seq![']'] + suffix
}

/// Whether a scope exists at the dotted path.
pub open spec fn scope_at(s: Snapshots, path: Seq<char>) -> bool {
    spec_find_scope(s.header_model().scopes@, split_on(path, '.')) is Some
}

/// Whether the dotted path names a registered variable present in the
/// snapshot under the cursor.
pub open spec fn var_visible(s: Snapshots, path: Seq<char>) -> bool {
    match spec_lookup(s.paths(), path) {
        Option::Some(id) => s.shots_model()[s.cursor()].vars.contains_key(id),
        Option::None => false,
    }
}

/// Builds `base.name`.
pub fn join_dotted(base: &str, name: &str) -> (r: String)
    ensures
        r@ == dotted(base@, name@),
{
    proof {
        reveal_strlit(".");
        assert("."@ =~= seq!['.']);
    }
    let mut s = String::new();
    s.append(base);
    s.append(".");
    s.append(name);
    proof {
        assert(s@ =~= dotted(base@, name@));
    }
    s
}

/// Builds `prefix[i]suffix`.
pub fn indexed_path(prefix: &str, i: usize, suffix: &str) -> (r: String)
    ensures
        r@ == indexed(prefix@, i as nat, suffix@),
{
    proof {
        reveal_strlit("[");
        reveal_strlit("]");
        assert("["@ =~= seq!['[']);
        assert("]"@ =~= seq![']']);
    }
    let mut s = String::new();
    s.append(prefix);
    s.append("[");
    let digits = u64_to_dec(i as u64);
    s.append(digits.as_str());
    s.append("]");
    s.append(suffix);
    proof {
        assert(s@ =~= indexed(prefix@, i as nat, suffix@));
    }
    s
}

/// Whether the marker variable `base.marker` is present: the tag that
/// tells which structural widget a scope models.
pub fn marker_present(s: &Snapshots, base: &str, marker: &str) -> (r: bool)
    requires
        s.wf(),
    ensures
        r == var_visible(*s, dotted(base@, marker@)),
{
    let path = join_dotted(base, marker);
    s.get_var(path.as_str()).is_some()
}

/// Counts how many consecutive scopes `prefix[0]suffix`, `prefix[1]suffix`,
/// ... exist: the runtime discovery of an array extent.
pub fn count_scope_array(s: &Snapshots, prefix: &str, suffix: &str) -> (r: usize)
    ensures
        forall|j: nat| j < r ==> scope_at(*s, #[trigger] indexed(prefix@, j, suffix@)),
        r < usize::MAX ==> !scope_at(*s, indexed(prefix@, r as nat, suffix@)),
{
    let mut i: usize = 0;
    loop
        invariant
            forall|j: nat| j < i ==> scope_at(*s, #[trigger] indexed(prefix@, j, suffix@)),
        decreases usize::MAX - i,
    {
        if i == usize::MAX {
            return i;
        }
        let path = indexed_path(prefix, i, suffix);
        if s.get_scope(path.as_str()).is_none() {
            return i;
        }
        i = i + 1;
    }
}

/// Counts how many consecutive variables `prefix[0]`, `prefix[1]`, ...
/// are present in the snapshot under the cursor.
pub fn count_var_array(s: &Snapshots, prefix: &str) -> (r: usize)
    requires
        s.wf(),
    ensures
        forall|j: nat| j < r ==> var_visible(*s, #[trigger] indexed(prefix@, j, Seq::empty())),
        r < usize::MAX ==> !var_visible(*s, indexed(prefix@, r as nat, Seq::empty())),
{
    let mut i: usize = 0;
    loop
        invariant
            s.wf(),
            forall|j: nat| j < i ==> var_visible(*s, #[trigger] indexed(prefix@, j, Seq::empty())),
        decreases usize::MAX - i,
    {
        if i == usize::MAX {
            return i;
        }
        let path = indexed_path(prefix, i, "");
        proof {
            reveal_strlit("");
            assert(""@ =~= Seq::<char>::empty());
        }
        if s.get_var(path.as_str()).is_none() {
            return i;
        }
        i = i + 1;
    }
}

} // verus!
