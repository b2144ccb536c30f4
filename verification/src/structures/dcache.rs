//! The data-cache widget: discovery of its geometry — ways, sets and
//! outstanding-miss slots — by probing the metadata scopes.

use vstd::prelude::*;

use crate::snapshots::Snapshots;
use crate::structures::probe::{
    count_scope_array, dotted, indexed, join_dotted, marker_present, scope_at, var_visible,
};

verus! {

/// A data cache found in the design, with its discovered geometry.
#[derive(Clone, Debug)]
pub struct DCache {
    pub base: String,
    pub num_ways: usize,
    pub num_sets: usize,
    pub num_mshrs: usize,
}

impl DCache {
    /// The shape discovery establishes: the marker is present; the way
    /// count is the run of `metadata[0][w]` scopes, the set count the run
    /// of `metadata[s][0]` scopes, and the miss-slot count the run of
    /// `waiting_commands[m]` scopes.
    pub open spec fn wf_for(self, s: Snapshots) -> bool {
        &&& var_visible(s, dotted(self.base@, "dbg_this_is_dcache"@))
        &&& forall|j: nat|
            j < self.num_ways ==> scope_at(
                s,
                #[trigger] indexed(dotted(self.base@, "metadata[0]"@), j, ""@),
            )
        &&& self.num_ways < usize::MAX ==> !scope_at(
            s,
            indexed(dotted(self.base@, "metadata[0]"@), self.num_ways as nat, ""@),
        )
        &&& forall|j: nat|
            j < self.num_sets ==> scope_at(
                s,
                #[trigger] indexed(dotted(self.base@, "metadata"@), j, "[0]"@),
            )
        &&& self.num_sets < usize::MAX ==> !scope_at(
            s,
            indexed(dotted(self.base@, "metadata"@), self.num_sets as nat, "[0]"@),
        )
        &&& forall|j: nat|
            j < self.num_mshrs ==> scope_at(
                s,
                #[trigger] indexed(dotted(self.base@, "waiting_commands"@), j, ""@),
            )
        &&& self.num_mshrs < usize::MAX ==> !scope_at(
            s,
            indexed(dotted(self.base@, "waiting_commands"@), self.num_mshrs as nat, ""@),
        )
    }

    /// Probes `base` for the data-cache marker, then discovers the
    /// geometry.
    pub fn new(base: &str, snapshots: &Snapshots) -> (r: Option<DCache>)
        requires
            snapshots.wf(),
        ensures
            match r {
                Option::Some(t) => t.base@ == base@ && t.wf_for(*snapshots),
                Option::None => !var_visible(*snapshots, dotted(base@, "dbg_this_is_dcache"@)),
            },
    {
        if !marker_present(snapshots, base, "dbg_this_is_dcache") {
            return Option::None;
        }
        let ways_prefix = join_dotted(base, "metadata[0]");
        let num_ways = count_scope_array(snapshots, ways_prefix.as_str(), "");
        let sets_prefix = join_dotted(base, "metadata");
        let num_sets = count_scope_array(snapshots, sets_prefix.as_str(), "[0]");
        let mshr_prefix = join_dotted(base, "waiting_commands");
        let num_mshrs = count_scope_array(snapshots, mshr_prefix.as_str(), "");
        Option::Some(DCache { base: base.to_owned(), num_ways, num_sets, num_mshrs })
    }
}

} // verus!
