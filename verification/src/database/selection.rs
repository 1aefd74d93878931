//! Facts about selecting the rows of a table that pass a test.

use vstd::prelude::*;

verus! {

/// Taking one more row into account adds it to the selection or leaves the
/// selection as it is.
pub proof fn lemma_filter_next<A>(rows: Seq<A>, keep: spec_fn(A) -> bool, k: int)
    requires
        0 <= k < rows.len(),
    ensures
        rows.take(k + 1).filter(keep) == if keep(rows[k]) {
            rows.take(k).filter(keep).push(rows[k])
        } else {
            rows.take(k).filter(keep)
        },
{
    reveal(Seq::filter);
    assert(rows.take(k + 1).drop_last() =~= rows.take(k));
}

/// Some row passes the test exactly when the selection is not empty.
pub proof fn lemma_filter_finds<A>(rows: Seq<A>, keep: spec_fn(A) -> bool)
    ensures
        rows.filter(keep).len() > 0 <==> exists|k: int| 0 <= k < rows.len() && keep(rows[k]),
    decreases rows.len(),
{
    reveal(Seq::filter);
    if rows.len() > 0 {
        let front = rows.drop_last();
        lemma_filter_finds(front, keep);
        if rows.filter(keep).len() > 0 {
            if keep(rows.last()) {
                assert(keep(rows[rows.len() - 1]));
            } else {
                let k = choose|k: int| 0 <= k < front.len() && keep(front[k]);
                assert(keep(rows[k]));
            }
        }
        if exists|k: int| 0 <= k < rows.len() && keep(rows[k]) {
            let k = choose|k: int| 0 <= k < rows.len() && keep(rows[k]);
            if k < rows.len() - 1 {
                assert(keep(front[k]));
            }
        }
    }
}

/// What a selection holds, the table holds.
pub proof fn lemma_filter_keeps_rows<A>(rows: Seq<A>, keep: spec_fn(A) -> bool, k: int)
    requires
        0 <= k < rows.filter(keep).len(),
    ensures
        rows.contains(rows.filter(keep)[k]),
    decreases rows.len(),
{
    reveal(Seq::filter);
    if rows.len() > 0 {
        let front = rows.drop_last();
        if k < front.filter(keep).len() {
            lemma_filter_keeps_rows(front, keep, k);
            let at = choose|at: int| 0 <= at < front.len() && front[at] == front.filter(keep)[k];
            assert(rows[at] == rows.filter(keep)[k]);
        } else {
            assert(rows[rows.len() - 1] == rows.filter(keep)[k]);
        }
    }
}

} // verus!
