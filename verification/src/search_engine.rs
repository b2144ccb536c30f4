//! Trusted wrappers around the approximate-search index of the `simsearch`
//! crate, which backs path autocomplete. The library treats it as the
//! minimal contract insert/search; ranking is the crate's own.

use vstd::prelude::*;

verus! {

/// Declares `simsearch::Index`, the fuzzy-search structure, so it can
/// stand in signatures and fields.
#[verifier::external_type_specification]
#[verifier::external_body]
#[verifier::reject_recursive_types(Id)]
pub struct ExSimIndex<Id: Eq + Clone + core::hash::Hash>(simsearch::Index<Id>);

/// Which keys have been inserted into a search index.
pub uninterp spec fn index_ids(e: simsearch::Index<u64>) -> Set<u64>;

/// The ranked hits a search index yields for a pattern: a function of
/// the index's contents and the query alone — the engine sorts by score
/// with a total tie-break on insertion order, so repeated calls agree.
pub uninterp spec fn engine_hits(e: simsearch::Index<u64>, pattern: Seq<char>) -> Seq<u64>;

/// Relies on `simsearch::Index::with_options`: a fresh index holds no
/// entries. Dots and brackets are separators, so each path segment is
/// searchable on its own.
#[verifier::external_body]
pub(crate) fn engine_new() -> (r: simsearch::Index<u64>)
    ensures
        forall|k: u64| !index_ids(r).contains(k),
{
    simsearch::Index::with_options(simsearch::Options::new().separators(['.', '[', ']']))
}

/// Relies on `simsearch::Index::insert`: afterward the key is present;
/// inserting an existing key replaces its content.
#[verifier::external_body]
pub(crate) fn engine_insert(e: &mut simsearch::Index<u64>, id: u64, content: &str)
    ensures
        index_ids(*final(e)) == index_ids(*old(e)).insert(id),
{
    e.insert(id, content);
}

/// Relies on `simsearch::Index::search`: the hits are a deterministic
/// function of the index and the pattern (scores are sorted with a total
/// tie-break on insertion order), and every hit is an inserted key.
#[verifier::external_body]
pub(crate) fn engine_search(e: &simsearch::Index<u64>, pattern: &str) -> (r: Vec<u64>)
    ensures
        r@ == engine_hits(*e, pattern@),
        forall|i: int| 0 <= i < r@.len() ==> index_ids(*e).contains(r@[i]),
{
    e.search(pattern).into_iter().map(|h| h.id).collect()
}

} // verus!
