//! The map-table widget: discovery of the checkpoint's register mapping
//! array. A map table carries no marker of its own; its base path is
//! supplied by the structure that owns it.

use vstd::prelude::*;

use crate::snapshots::Snapshots;
use crate::structures::probe::{count_scope_array, indexed, scope_at};

verus! {

/// A register map table, with its entry count.
#[derive(Clone, Debug)]
pub struct MapTable {
    pub base: String,
    pub size: usize,
}

impl MapTable {
    /// The shape discovery establishes: the size is exactly the run of
    /// existing `base[i]` scopes.
    pub open spec fn wf_for(self, s: Snapshots) -> bool {
        &&& forall|j: nat| j < self.size ==> scope_at(s, #[trigger] indexed(self.base@, j, ""@))
        &&& self.size < usize::MAX ==> !scope_at(s, indexed(self.base@, self.size as nat, ""@))
    }

    /// Counts the `base[i]` scopes; a map table exists wherever its owner
    /// says, so this never fails.
    pub fn new(base: &str, snapshots: &Snapshots) -> (r: MapTable)
        ensures
            r.base@ == base@,
            r.wf_for(*snapshots),
    {
        let size = count_scope_array(snapshots, base, "");
        MapTable { base: base.to_owned(), size }
    }
}

} // verus!
