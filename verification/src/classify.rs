//! Classification of resolved imports against a watchlist: every record is
//! recorded as found; those whose name is watchlisted are additionally
//! duplicated into the matching list.

use vstd::prelude::*;

use crate::report::{import_views, Import, ImportSet, SImport};

verus! {

/// `name` is one of the watchlist entries (exact, case-sensitive).
pub open spec fn in_watchlist(wl: Seq<String>, name: Seq<char>) -> bool {
    exists|i: int| 0 <= i < wl.len() && wl[i]@ == name
}

/// The subsequence of `imps` whose names are in the watchlist, in order.
pub open spec fn matching_of(imps: Seq<SImport>, wl: Seq<String>) -> Seq<SImport> {
    imps.filter(|s: SImport| in_watchlist(wl, s.name))
}

/// Exact membership test of `name` in the watchlist.
pub fn set_contains(wl: &ImportSet, name: &String) -> (r: bool)
    ensures
        r == in_watchlist(wl@, name@),
{
    let n = wl.len();
    let mut j: usize = 0;
    while j < n
        invariant
            n == wl@.len(),
            0 <= j <= n,
            forall|i: int| 0 <= i < j ==> wl@[i]@ != name@,
        decreases n - j,
    {
        if wl[j].eq(name) {
            return true;
        }
        j = j + 1;
    }
    false
}

impl Import {
    /// An equal copy of the record.
    pub fn duplicate(&self) -> (r: Import)
        ensures
            r@ == self@,
    {
        Import { va: self.va, hint: self.hint, name: self.name.clone() }
    }
}

/// Partition resolved imports against the watchlist. Every record, matched
/// or not, stays in the found list unchanged and in order; the matching
/// list holds exactly the watchlisted ones, in the same order.
pub fn classify(imports: Vec<Import>, wl: &ImportSet) -> (r: (Vec<Import>, Vec<Import>))
    ensures
        r.0 == imports,
        import_views(r.1@) == matching_of(import_views(imports@), wl@),
{
    let n = imports.len();
    let mut matching: Vec<Import> = Vec::new();
    let mut j: usize = 0;
    while j < n
        invariant
            n == imports@.len(),
            0 <= j <= n,
            import_views(matching@) == matching_of(import_views(imports@.take(j as int)), wl@),
        decreases n - j,
    {
        let imp = &imports[j];
        let ghost prev = import_views(imports@.take(j as int));
        let ghost cur = import_views(imports@.take(j + 1));
        proof {
            assert(cur =~= prev.push(imports@[j as int]@));
            assert(cur.drop_last() =~= prev);
            reveal(Seq::filter);
        }
        if set_contains(wl, &imp.name) {
            matching.push(imp.duplicate());
            proof {
                assert(import_views(matching@) =~= matching_of(cur, wl@));
            }
        } else {
            proof {
                assert(import_views(matching@) =~= matching_of(cur, wl@));
            }
        }
        j = j + 1;
    }
    proof {
        assert(imports@.take(n as int) =~= imports@);
    }
    (imports, matching)
}

/// Whatever the filter keeps was already present.
proof fn lemma_filter_subset<A>(s: Seq<A>, pred: spec_fn(A) -> bool, x: A)
    requires
        s.filter(pred).contains(x),
    ensures
        s.contains(x),
    decreases s.len(),
{
    reveal(Seq::filter);
    if s.len() > 0 {
        if x == s.last() {
            assert(s[s.len() - 1] == x);
        } else {
            if s.drop_last().filter(pred).contains(x) {
                lemma_filter_subset(s.drop_last(), pred, x);
                let i = choose|i: int| 0 <= i < s.drop_last().len() && s.drop_last()[i] == x;
                assert(s[i] == x);
            } else {
                assert(false);
            }
        }
    }
}

/// The matching records add nothing to the found ones: their union is
/// exactly the set of name-resolved kernel imports, whatever the watchlist.
pub proof fn lemma_found_union_matching(imps: Seq<SImport>, wl: Seq<String>)
    ensures
        forall|x: SImport|
            (imps.contains(x) || #[trigger] matching_of(imps, wl).contains(x)) <==> imps.contains(
                x,
            ),
{
    assert forall|x: SImport| #[trigger] matching_of(imps, wl).contains(x) implies imps.contains(
        x,
    ) by {
        lemma_filter_subset(imps, |s: SImport| in_watchlist(wl, s.name), x);
    }
}

/// The matching records are exactly the found ones whose name is in the
/// watchlist; an empty watchlist matches nothing.
pub proof fn lemma_matching_exact(imps: Seq<SImport>, wl: Seq<String>)
    ensures
        forall|x: SImport|
            #[trigger] matching_of(imps, wl).contains(x) <==> imps.contains(x) && in_watchlist(
                wl,
                x.name,
            ),
        wl.len() == 0 ==> matching_of(imps, wl).len() == 0,
{
    broadcast use vstd::seq_lib::group_filter_ensures;

    let pred = |s: SImport| in_watchlist(wl, s.name);
    assert forall|x: SImport| #[trigger] matching_of(imps, wl).contains(x) implies imps.contains(x)
        && in_watchlist(wl, x.name) by {
        lemma_filter_subset(imps, pred, x);
        let i = choose|i: int| 0 <= i < imps.filter(pred).len() && imps.filter(pred)[i] == x;
        assert(pred(imps.filter(pred)[i]));
    }
    assert forall|x: SImport| imps.contains(x) && in_watchlist(wl, x.name) implies #[trigger]
    matching_of(imps, wl).contains(x) by {
        let i = choose|i: int| 0 <= i < imps.len() && imps[i] == x;
        assert(pred(imps[i]));
    }
    if wl.len() == 0 {
        if matching_of(imps, wl).len() > 0 {
            assert(pred(imps.filter(pred)[0]));
        }
    }
}

} // verus!
