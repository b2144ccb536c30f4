//! The functional-unit widget: discovery of the output packet arrays.

use vstd::prelude::*;

use crate::snapshots::Snapshots;
use crate::structures::probe::{count_scope_array, dotted, indexed, join_dotted, marker_present, scope_at, var_visible};

verus! {

/// A functional-unit block found in the design, with its packet counts.
#[derive(Clone, Debug)]
pub struct FU {
    pub base: String,
    pub num_alus: usize,
    pub num_mults: usize,
    pub num_branches: usize,
    pub num_stores: usize,
}

impl FU {
    /// The shape discovery establishes: the marker variable is present
    /// and each counted extent is exactly the run of existing entries.
    pub open spec fn wf_for(self, s: Snapshots) -> bool {
        &&& var_visible(s, dotted(self.base@, "dbg_this_is_fu"@))
        &&& forall|j: nat|
            j < self.num_alus ==> scope_at(s, #[trigger] indexed(dotted(self.base@, "alu_output_packets"@), j, ""@))
        &&& self.num_alus < usize::MAX ==> !scope_at(
            s,
            indexed(dotted(self.base@, "alu_output_packets"@), self.num_alus as nat, ""@),
        )
        &&& forall|j: nat|
            j < self.num_mults ==> scope_at(s, #[trigger] indexed(dotted(self.base@, "mult_output_packets"@), j, ""@))
        &&& self.num_mults < usize::MAX ==> !scope_at(
            s,
            indexed(dotted(self.base@, "mult_output_packets"@), self.num_mults as nat, ""@),
        )
        &&& forall|j: nat|
            j < self.num_branches ==> scope_at(s, #[trigger] indexed(dotted(self.base@, "branch_output_packets"@), j, ""@))
        &&& self.num_branches < usize::MAX ==> !scope_at(
            s,
            indexed(dotted(self.base@, "branch_output_packets"@), self.num_branches as nat, ""@),
        )
        &&& forall|j: nat|
            j < self.num_stores ==> scope_at(s, #[trigger] indexed(dotted(self.base@, "store_output_packets"@), j, ""@))
        &&& self.num_stores < usize::MAX ==> !scope_at(
            s,
            indexed(dotted(self.base@, "store_output_packets"@), self.num_stores as nat, ""@),
        )
    }

    /// Probes `base` for the marker variable `dbg_this_is_fu`; when it is
    /// present, discovers the array extents and builds the widget state.
    pub fn new(base: &str, snapshots: &Snapshots) -> (r: Option<FU>)
        requires
            snapshots.wf(),
        ensures
            match r {
                Option::Some(t) => t.base@ == base@ && t.wf_for(*snapshots),
                Option::None => !var_visible(*snapshots, dotted(base@, "dbg_this_is_fu"@)),
            },
    {
        if !marker_present(snapshots, base, "dbg_this_is_fu") {
            return Option::None;
        }
        let num_alus_prefix = join_dotted(base, "alu_output_packets");
        let num_alus = count_scope_array(snapshots, num_alus_prefix.as_str(), "");
        let num_mults_prefix = join_dotted(base, "mult_output_packets");
        let num_mults = count_scope_array(snapshots, num_mults_prefix.as_str(), "");
        let num_branches_prefix = join_dotted(base, "branch_output_packets");
        let num_branches = count_scope_array(snapshots, num_branches_prefix.as_str(), "");
        let num_stores_prefix = join_dotted(base, "store_output_packets");
        let num_stores = count_scope_array(snapshots, num_stores_prefix.as_str(), "");
        Option::Some(FU {
            base: base.to_owned(),
            num_alus: num_alus,
            num_mults: num_mults,
            num_branches: num_branches,
            num_stores: num_stores,
        })
    }
}

} // verus!
