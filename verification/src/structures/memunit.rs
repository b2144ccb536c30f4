//! The memory-unit widget: marker discovery only; the unit's signals are
//! read directly under its base path.

use vstd::prelude::*;

use crate::snapshots::Snapshots;
use crate::structures::probe::{dotted, marker_present, var_visible};

verus! {

/// A memory unit found in the design.
#[derive(Clone, Debug)]
pub struct MemUnit {
    pub base: String,
}

impl MemUnit {
    /// The shape discovery establishes: the marker variable is present.
    pub open spec fn wf_for(self, s: Snapshots) -> bool {
        var_visible(s, dotted(self.base@, "dbg_this_is_memunit"@))
    }

    /// Probes `base` for the memory-unit marker.
    pub fn new(base: &str, snapshots: &Snapshots) -> (r: Option<MemUnit>)
        requires
            snapshots.wf(),
        ensures
            match r {
                Option::Some(t) => t.base@ == base@ && t.wf_for(*snapshots),
                Option::None => !var_visible(*snapshots, dotted(base@, "dbg_this_is_memunit"@)),
            },
    {
        if !marker_present(snapshots, base, "dbg_this_is_memunit") {
            return Option::None;
        }
        Option::Some(MemUnit { base: base.to_owned() })
    }
}

} // verus!
