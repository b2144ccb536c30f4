//! The register-file widget: discovery of the physical register array,
//! probed through the memory variables rather than scopes.

use vstd::prelude::*;

use crate::snapshots::Snapshots;
use crate::structures::probe::{
    count_var_array, dotted, indexed, join_dotted, marker_present, var_visible,
};

verus! {

/// A register file found in the design, with its register count.
#[derive(Clone, Debug)]
pub struct RegFile {
    pub base: String,
    pub size: usize,
}

impl RegFile {
    /// The shape discovery establishes: the marker is present and the
    /// size is exactly the run of present `regfile_mem.memData[i]`
    /// variables.
    pub open spec fn wf_for(self, s: Snapshots) -> bool {
        &&& var_visible(s, dotted(self.base@, "dbg_this_is_regfile"@))
        &&& forall|j: nat|
            j < self.size ==> var_visible(
                s,
                #[trigger] indexed(dotted(self.base@, "regfile_mem.memData"@), j, Seq::empty()),
            )
        &&& self.size < usize::MAX ==> !var_visible(
            s,
            indexed(dotted(self.base@, "regfile_mem.memData"@), self.size as nat, Seq::empty()),
        )
    }

    /// Probes `base` for the register-file marker, then counts registers.
    pub fn new(base: &str, snapshots: &Snapshots) -> (r: Option<RegFile>)
        requires
            snapshots.wf(),
        ensures
            match r {
                Option::Some(t) => t.base@ == base@ && t.wf_for(*snapshots),
                Option::None => !var_visible(*snapshots, dotted(base@, "dbg_this_is_regfile"@)),
            },
    {
        if !marker_present(snapshots, base, "dbg_this_is_regfile") {
            return Option::None;
        }
        let prefix = join_dotted(base, "regfile_mem.memData");
        let size = count_var_array(snapshots, prefix.as_str());
        Option::Some(RegFile { base: base.to_owned(), size })
    }
}

} // verus!
