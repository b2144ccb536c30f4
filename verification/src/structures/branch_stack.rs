//! The branch-stack widget: marker discovery plus the map table of the
//! active checkpoint it carries.

use vstd::prelude::*;

use crate::snapshots::Snapshots;
use crate::structures::map_table::MapTable;
use crate::structures::probe::{dotted, join_dotted, marker_present, var_visible};

verus! {

/// A branch stack found in the design, with its active checkpoint's map
/// table.
#[derive(Clone, Debug)]
pub struct BranchStack {
    pub base: String,
    pub map_table: MapTable,
}

impl BranchStack {
    /// The shape discovery establishes: the marker is present and the
    /// nested map table was discovered under the active checkpoint.
    pub open spec fn wf_for(self, s: Snapshots) -> bool {
        &&& var_visible(s, dotted(self.base@, "dbg_this_is_bstack"@))
        &&& self.map_table.base@ == dotted(self.base@, "active_checkpoint.map_table"@)
        &&& self.map_table.wf_for(s)
    }

    /// Probes `base` for the branch-stack marker, then discovers the
    /// checkpoint's map table.
    pub fn new(base: &str, snapshots: &Snapshots) -> (r: Option<BranchStack>)
        requires
            snapshots.wf(),
        ensures
            match r {
                Option::Some(t) => t.base@ == base@ && t.wf_for(*snapshots),
                Option::None => !var_visible(*snapshots, dotted(base@, "dbg_this_is_bstack"@)),
            },
    {
        if !marker_present(snapshots, base, "dbg_this_is_bstack") {
            return Option::None;
        }
        let mt_base = join_dotted(base, "active_checkpoint.map_table");
        let map_table = MapTable::new(mt_base.as_str(), snapshots);
        Option::Some(BranchStack { base: base.to_owned(), map_table })
    }
}

} // verus!
