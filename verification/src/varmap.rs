//! Trusted wrappers around the persistent hash map that snapshots share
//! structurally: each commit is an O(1) clone, and updates cost only the
//! entries they touch.

use vstd::prelude::*;

use crate::values::{vv_view, ValueView, VerilogValue};

verus! {

/// Declares `im::HashMap`, the persistent map whose clones share
/// structure, so it can stand in signatures and fields.
#[verifier::external_type_specification]
#[verifier::external_body]
#[verifier::reject_recursive_types(K)]
#[verifier::reject_recursive_types(V)]
#[verifier::reject_recursive_types(S)]
pub struct ExImHashMap<K, V, S>(im::HashMap<K, V, S>);

/// What a variable map holds: the shape of each signal's current value,
/// keyed by the signal's stable handle.
pub uninterp spec fn var_map_contents(vm: im::HashMap<u64, VerilogValue>) -> Map<u64, ValueView>;

/// Relies on `im::HashMap::new`: a fresh map is empty.
#[verifier::external_body]
pub(crate) fn var_map_new() -> (r: im::HashMap<u64, VerilogValue>)
    ensures
        forall|k: u64| !var_map_contents(r).contains_key(k),
{
    im::HashMap::new()
}

/// Relies on `im::HashMap::insert`: afterward the map holds `v` at `k`
/// and is unchanged at every other key.
#[verifier::external_body]
pub(crate) fn var_map_insert(m: &mut im::HashMap<u64, VerilogValue>, k: u64, v: VerilogValue)
    ensures
        var_map_contents(*final(m)) == var_map_contents(*old(m)).insert(k, vv_view(v)),
{
    m.insert(k, v);
}

/// Relies on `im::HashMap::get`: the entry at `k`, if one is present.
#[verifier::external_body]
pub(crate) fn var_map_get<'a>(m: &'a im::HashMap<u64, VerilogValue>, k: u64) -> (r: Option<
    &'a VerilogValue,
>)
    ensures
        match r {
            Option::Some(v) => var_map_contents(*m).contains_key(k) && var_map_contents(*m)[k]
                == vv_view(*v),
            Option::None => !var_map_contents(*m).contains_key(k),
        },
{
    m.get(&k)
}

/// Relies on `im::HashMap::clone`: a structurally shared copy holding the
/// same entries.
#[verifier::external_body]
pub(crate) fn var_map_clone(m: &im::HashMap<u64, VerilogValue>) -> (r: im::HashMap<u64, VerilogValue>)
    ensures
        var_map_contents(r) == var_map_contents(*m),
{
    m.clone()
}

} // verus!
