//! The fixed-size reservation-station view used by single-module test
//! benches, whose geometry is known ahead of time.

use vstd::prelude::*;

verus! {

/// A reservation-station view over a test bench with a fixed layout.
#[derive(Clone, Copy, Debug)]
pub struct RSTable {}

impl RSTable {
    /// The view carries no state of its own; the fixed layout lives with
    /// the renderer.
    pub fn new() -> (r: RSTable)
        ensures
            r == (RSTable {  }),
    {
        RSTable {  }
    }
}

impl Default for RSTable {
    /// The same empty view `new` builds.
    fn default() -> (r: RSTable)
        ensures
            r == (RSTable {  }),
    {
        RSTable::new()
    }
}

} // verus!
