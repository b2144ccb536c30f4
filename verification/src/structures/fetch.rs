//! The fetch-stage widget: discovery of the incoming instruction slots.

use vstd::prelude::*;

use crate::snapshots::Snapshots;
use crate::structures::probe::{count_scope_array, dotted, indexed, join_dotted, marker_present, scope_at, var_visible};

verus! {

/// A fetch stage found in the design, with its slot count.
#[derive(Clone, Debug)]
pub struct Fetch {
    pub base: String,
    pub n: usize,
}

impl Fetch {
    /// The shape discovery establishes: the marker variable is present
    /// and each counted extent is exactly the run of existing entries.
    pub open spec fn wf_for(self, s: Snapshots) -> bool {
        &&& var_visible(s, dotted(self.base@, "dbg_this_is_fetch"@))
        &&& forall|j: nat|
            j < self.n ==> scope_at(s, #[trigger] indexed(dotted(self.base@, "incoming_instrs"@), j, ""@))
        &&& self.n < usize::MAX ==> !scope_at(
            s,
            indexed(dotted(self.base@, "incoming_instrs"@), self.n as nat, ""@),
        )
    }

    /// Probes `base` for the marker variable `dbg_this_is_fetch`; when it is
    /// present, discovers the array extents and builds the widget state.
    pub fn new(base: &str, snapshots: &Snapshots) -> (r: Option<Fetch>)
        requires
            snapshots.wf(),
        ensures
            match r {
                Option::Some(t) => t.base@ == base@ && t.wf_for(*snapshots),
                Option::None => !var_visible(*snapshots, dotted(base@, "dbg_this_is_fetch"@)),
            },
    {
        if !marker_present(snapshots, base, "dbg_this_is_fetch") {
            return Option::None;
        }
        let n_prefix = join_dotted(base, "incoming_instrs");
        let n = count_scope_array(snapshots, n_prefix.as_str(), "");
        Option::Some(Fetch {
            base: base.to_owned(),
            n: n,
        })
    }
}

} // verus!
