//! The store-queue widget: discovery of its entry array.

use vstd::prelude::*;

use crate::snapshots::Snapshots;
use crate::structures::probe::{count_scope_array, dotted, indexed, join_dotted, marker_present, scope_at, var_visible};

verus! {

/// A store queue found in the design, with its entry count.
#[derive(Clone, Debug)]
pub struct StoreQueue {
    pub base: String,
    pub size: usize,
}

impl StoreQueue {
    /// The shape discovery establishes: the marker variable is present
    /// and each counted extent is exactly the run of existing entries.
    pub open spec fn wf_for(self, s: Snapshots) -> bool {
        &&& var_visible(s, dotted(self.base@, "dbg_this_is_store_queue"@))
        &&& forall|j: nat|
            j < self.size ==> scope_at(s, #[trigger] indexed(dotted(self.base@, "entries"@), j, ""@))
        &&& self.size < usize::MAX ==> !scope_at(
            s,
            indexed(dotted(self.base@, "entries"@), self.size as nat, ""@),
        )
    }

    /// Probes `base` for the marker variable `dbg_this_is_store_queue`; when it is
    /// present, discovers the array extents and builds the widget state.
    pub fn new(base: &str, snapshots: &Snapshots) -> (r: Option<StoreQueue>)
        requires
            snapshots.wf(),
        ensures
            match r {
                Option::Some(t) => t.base@ == base@ && t.wf_for(*snapshots),
                Option::None => !var_visible(*snapshots, dotted(base@, "dbg_this_is_store_queue"@)),
            },
    {
        if !marker_present(snapshots, base, "dbg_this_is_store_queue") {
            return Option::None;
        }
        let size_prefix = join_dotted(base, "entries");
        let size = count_scope_array(snapshots, size_prefix.as_str(), "");
        Option::Some(StoreQueue {
            base: base.to_owned(),
            size: size,
        })
    }
}

} // verus!
