//! Which descriptors and work caches of earlier deployments are purged: every
//! descriptor but the active one, and every work cache whose stem is that of
//! a descriptor that was removed. The stems of the removed descriptors are
//! kept in a `Vec` and looked up by membership, so a repeated stem changes
//! nothing.

use vstd::prelude::*;
use crate::paths::{file_stem, stem_of};

verus! {

/// The descriptors to delete: every entry of the descriptor directory, in
/// order, but the active descriptor.
pub open spec fn stale_entries(entries: Seq<Seq<char>>, active: Seq<char>) -> Seq<Seq<char>> {
    entries.filter(|e: Seq<char>| e != active)
}

/// The stems of the descriptors that were removed.
pub open spec fn stems(removed: Seq<Seq<char>>) -> Seq<Seq<char>> {
    removed.map_values(|e: Seq<char>| file_stem(e))
}

/// The work caches to delete: every entry of the work directory, in order,
/// whose stem is the stem of a removed descriptor.
pub open spec fn stale_caches(work: Seq<Seq<char>>, removed: Seq<Seq<char>>) -> Seq<Seq<char>> {
    work.filter(|e: Seq<char>| stems(removed).contains(file_stem(e)))
}

/// Cleanup never deletes the active descriptor, and deletes every other
/// entry of the descriptor directory.
pub proof fn lemma_active_descriptor_kept(entries: Seq<Seq<char>>, active: Seq<char>)
    ensures
        !stale_entries(entries, active).contains(active),
        forall|e: Seq<char>|
            entries.contains(e) && e != active ==> stale_entries(entries, active).contains(e),
{
    broadcast use vstd::seq_lib::group_filter_ensures;

    let pred = |e: Seq<char>| e != active;
    assert forall|e: Seq<char>| entries.contains(e) && e != active implies stale_entries(
        entries,
        active,
    ).contains(e) by {
        let i = choose|i: int| 0 <= i < entries.len() && entries[i] == e;
        entries.lemma_filter_contains(pred, i);
    }
    if stale_entries(entries, active).contains(active) {
        let i = choose|i: int|
            0 <= i < stale_entries(entries, active).len() && stale_entries(entries, active)[i]
                == active;
        entries.lemma_filter_pred(pred, i);
    }
}

/// A work cache is deleted exactly when a removed descriptor has its stem.
pub proof fn lemma_cache_purged_iff_stem_removed(
    work: Seq<Seq<char>>,
    removed: Seq<Seq<char>>,
    w: Seq<char>,
)
    requires
        work.contains(w),
    ensures
        stale_caches(work, removed).contains(w) <==> stems(removed).contains(file_stem(w)),
{
    broadcast use vstd::seq_lib::group_filter_ensures;

    let pred = |e: Seq<char>| stems(removed).contains(file_stem(e));
    let i = choose|i: int| 0 <= i < work.len() && work[i] == w;
    if pred(w) {
        work.lemma_filter_contains(pred, i);
    }
    if stale_caches(work, removed).contains(w) {
        let j = choose|j: int|
            0 <= j < stale_caches(work, removed).len() && stale_caches(work, removed)[j] == w;
        work.lemma_filter_pred(pred, j);
    }
}

/// Selects the descriptors to delete: all entries of the descriptor
/// directory but the one named `active`.
pub fn stale_descriptors(entries: &Vec<String>, active: &String) -> (r: Vec<String>)
    ensures
        r.deep_view() == stale_entries(entries.deep_view(), active@),
{
    let ghost pred = |e: Seq<char>| e != active@;
    let mut r: Vec<String> = Vec::new();
    let mut i: usize = 0;
    while i < entries.len()
        invariant
            i <= entries.len(),
            pred == (|e: Seq<char>| e != active@),
            r.deep_view() == entries.deep_view().subrange(0, i as int).filter(pred),
        decreases entries.len() - i,
    {
        let ghost before = r.deep_view();
        proof {
            assert(entries.deep_view().subrange(0, i + 1) =~= entries.deep_view().subrange(
                0,
                i as int,
            ).push(entries[i as int]@));
            entries.deep_view().subrange(0, i as int).lemma_filter_push(entries[i as int]@, pred);
        }
        if entries[i] != *active {
            r.push(entries[i].clone());
            assert(r.deep_view() =~= before.push(entries[i as int]@));
        }
        i = i + 1;
    }
    assert(entries.deep_view().subrange(0, entries.len() as int) =~= entries.deep_view());
    r
}

/// The stems of the removed descriptors, in order.
pub fn removed_stems(removed: &Vec<String>) -> (r: Vec<String>)
    ensures
        r.deep_view() == stems(removed.deep_view()),
{
    let mut r: Vec<String> = Vec::new();
    let mut i: usize = 0;
    while i < removed.len()
        invariant
            i <= removed.len(),
            r.deep_view() =~= stems(removed.deep_view().subrange(0, i as int)),
        decreases removed.len() - i,
    {
        let ghost before = r.deep_view();
        let s = stem_of(removed[i].as_str());
        r.push(s);
        assert(r.deep_view() =~= before.push(file_stem(removed[i as int]@)));
        assert(removed.deep_view().subrange(0, i + 1) =~= removed.deep_view().subrange(
            0,
            i as int,
        ).push(removed[i as int]@));
        i = i + 1;
        assert(r.deep_view() =~= stems(removed.deep_view().subrange(0, i as int)));
    }
    assert(removed.deep_view().subrange(0, removed.len() as int) =~= removed.deep_view());
    r
}

/// Whether `x` is one of `v`.
pub fn contains_name(v: &Vec<String>, x: &String) -> (r: bool)
    ensures
        r == v.deep_view().contains(x@),
{
    let mut i: usize = 0;
    while i < v.len()
        invariant
            i <= v.len(),
            forall|j: int| 0 <= j < i ==> v.deep_view()[j] != x@,
        decreases v.len() - i,
    {
        if v[i] == *x {
            assert(v.deep_view()[i as int] == x@);
            return true;
        }
        i = i + 1;
    }
    false
}

/// Selects the work caches to delete: the entries of the work directory whose
/// stem is the stem of one of the `removed` descriptors.
pub fn stale_work_dirs(work: &Vec<String>, removed: &Vec<String>) -> (r: Vec<String>)
    ensures
        r.deep_view() == stale_caches(work.deep_view(), removed.deep_view()),
{
    let gone = removed_stems(removed);
    let ghost pred = |e: Seq<char>| stems(removed.deep_view()).contains(file_stem(e));
    let mut r: Vec<String> = Vec::new();
    let mut i: usize = 0;
    while i < work.len()
        invariant
            i <= work.len(),
            gone.deep_view() == stems(removed.deep_view()),
            pred == (|e: Seq<char>| stems(removed.deep_view()).contains(file_stem(e))),
            r.deep_view() == work.deep_view().subrange(0, i as int).filter(pred),
        decreases work.len() - i,
    {
        let ghost before = r.deep_view();
        proof {
            assert(work.deep_view().subrange(0, i + 1) =~= work.deep_view().subrange(
                0,
                i as int,
            ).push(work[i as int]@));
            work.deep_view().subrange(0, i as int).lemma_filter_push(work[i as int]@, pred);
        }
        let stem = stem_of(work[i].as_str());
        if contains_name(&gone, &stem) {
            r.push(work[i].clone());
            assert(r.deep_view() =~= before.push(work[i as int]@));
        }
        i = i + 1;
    }
    assert(work.deep_view().subrange(0, work.len() as int) =~= work.deep_view());
    r
}

} // verus!
