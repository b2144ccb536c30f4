//! The completion-stage widget: discovery of the common data buses.

use vstd::prelude::*;

use crate::snapshots::Snapshots;
use crate::structures::probe::{count_scope_array, dotted, indexed, join_dotted, marker_present, scope_at, var_visible};

verus! {

/// A completion stage found in the design, with its bus count.
#[derive(Clone, Debug)]
pub struct Complete {
    pub base: String,
    pub n: usize,
}

impl Complete {
    /// The shape discovery establishes: the marker variable is present
    /// and each counted extent is exactly the run of existing entries.
    pub open spec fn wf_for(self, s: Snapshots) -> bool {
        &&& var_visible(s, dotted(self.base@, "dbg_this_is_complete"@))
        &&& forall|j: nat|
            j < self.n ==> scope_at(s, #[trigger] indexed(dotted(self.base@, "cdb"@), j, ""@))
        &&& self.n < usize::MAX ==> !scope_at(
            s,
            indexed(dotted(self.base@, "cdb"@), self.n as nat, ""@),
        )
    }

    /// Probes `base` for the marker variable `dbg_this_is_complete`; when it is
    /// present, discovers the array extents and builds the widget state.
    pub fn new(base: &str, snapshots: &Snapshots) -> (r: Option<Complete>)
        requires
            snapshots.wf(),
        ensures
            match r {
                Option::Some(t) => t.base@ == base@ && t.wf_for(*snapshots),
                Option::None => !var_visible(*snapshots, dotted(base@, "dbg_this_is_complete"@)),
            },
    {
        if !marker_present(snapshots, base, "dbg_this_is_complete") {
            return Option::None;
        }
        let n_prefix = join_dotted(base, "cdb");
        let n = count_scope_array(snapshots, n_prefix.as_str(), "");
        Option::Some(Complete {
            base: base.to_owned(),
            n: n,
        })
    }
}

} // verus!
