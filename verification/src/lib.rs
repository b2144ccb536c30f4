//! A post-mortem debugger core for digital-logic simulation traces.
//!
//! The library turns a chronological stream of signal value changes into a
//! cycle-addressable snapshot history, resolves dotted hierarchical signal
//! paths against a scope tree, and offers four-state bit-vector values with
//! formatting and predicates.

use vstd::prelude::*;

pub mod inst;
pub mod laws;
pub mod numerals;
pub mod rs;
pub mod scope;
pub mod search_engine;
pub mod snapshots;
pub mod structures;
pub mod strutil;
pub mod utils;
pub mod values;
pub mod var_index;
pub mod varmap;

verus! {

/// Saturating addition on `usize`, used to bound the ingestion window.
pub fn sat_add_usize(a: usize, b: usize) -> (r: usize)
    ensures
        r == if a + b <= usize::MAX { a + b } else { usize::MAX as int },
{
    if a <= usize::MAX - b {
        a + b
    } else {
        usize::MAX
    }
}

} // verus!
