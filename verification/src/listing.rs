//! Lists in a fixed order: rows carry a rank and are kept ascending by it.

use vstd::prelude::*;
use vstd::multiset::Multiset;

verus! {

/// A row that has a place in a listing.
pub trait Ranked {
    /// The rank of the row: a row with a smaller rank is listed earlier.
    /// Ranks compare by their first number, then by their second.
    spec fn rank(&self) -> (int, int);

    /// Whether this row is listed strictly before `other`.
    fn goes_before(&self, other: &Self) -> (earlier: bool)
        ensures
            earlier == rank_lt(self.rank(), other.rank()),
    ;
}

/// A choice among rows of one kind.
pub trait Selector<T> {
    /// Whether the row is among the chosen.
    spec fn keeps(&self, row: &T) -> bool;

    /// Whether the row is among the chosen.
    fn test(&self, row: &T) -> (kept: bool)
        ensures
            kept == self.keeps(row),
    ;
}

/// The rows that a selector keeps, as a predicate.
pub open spec fn kept_by<T, S: Selector<T>>(selector: S) -> spec_fn(T) -> bool {
    |row: T| selector.keeps(&row)
}

/// The strict order of ranks.
pub open spec fn rank_lt(a: (int, int), b: (int, int)) -> bool {
    a.0 < b.0 || (a.0 == b.0 && a.1 < b.1)
}

/// The rank of an optional instant when the newest comes first: a row
/// without an instant counts as newer than any other.
pub open spec fn newest_first(at: Option<i64>) -> int {
    match at {
        Some(t) => -(t as int),
        None => -(i64::MAX as int) - 1,
    }
}

/// Whether an instant is listed strictly before another when the newest
/// comes first.
pub fn is_newer(a: Option<i64>, b: Option<i64>) -> (newer: bool)
    ensures
        newer == (newest_first(a) < newest_first(b)),
{
    match (a, b) {
        (None, Some(_)) => true,
        (Some(x), Some(y)) => x > y,
        _ => false,
    }
}

/// No row is listed after a row that goes before it.
pub open spec fn in_order<T: Ranked>(rows: Seq<T>) -> bool {
    forall|i: int, j: int|
        0 <= i < j < rows.len() ==> !rank_lt((#[trigger] rows[j]).rank(), (#[trigger] rows[i]).rank())
}

/// Puts a row at its place in a listing: behind every row that does not go
/// after it.
pub fn insert_in_order<T: Ranked>(rows: &mut Vec<T>, row: T)
    requires
        in_order(old(rows)@),
    ensures
        in_order(final(rows)@),
        final(rows)@.to_multiset() == old(rows)@.to_multiset().insert(row),
        final(rows)@.len() == old(rows)@.len() + 1,
        final(rows)@.contains(row),
        forall|k: int| 0 <= k < old(rows)@.len() ==> final(rows)@.contains(#[trigger] old(rows)@[k]),
        forall|k: int|
            0 <= k < final(rows)@.len() ==> (#[trigger] final(rows)@[k] == row || old(rows)@.contains(
                final(rows)@[k],
            )),
{
    let mut p: usize = 0;
    while p < rows.len() && !row.goes_before(&rows[p])
        invariant
            p <= rows.len(),
            *rows == *old(rows),
            forall|i: int| 0 <= i < p ==> !rank_lt(row.rank(), (#[trigger] rows@[i]).rank()),
        decreases rows.len() - p,
    {
        p += 1;
    }
    let ghost before = rows@;
    rows.insert(p, row);
    proof {
        vstd::seq_lib::to_multiset_insert(before, p as int, row);
        let after = rows@;
        assert(after[p as int] == row);
        assert forall|i: int, j: int| 0 <= i < j < after.len() implies !rank_lt(
            (#[trigger] after[j]).rank(),
            (#[trigger] after[i]).rank(),
        ) by {
            if j == p {
                assert(after[i] == before[i]);
            } else if i == p {
                assert(after[j] == before[j - 1]);
                if j - 1 > p {
                    assert(!rank_lt(before[j - 1].rank(), before[p as int].rank()));
                }
            } else {
                let bi = if i < p { i } else { i - 1 };
                let bj = if j < p { j } else { j - 1 };
                assert(after[i] == before[bi]);
                assert(after[j] == before[bj]);
            }
        }
        assert forall|k: int| 0 <= k < before.len() implies after.contains(
            #[trigger] before[k],
        ) by {
            let t = if k < p { k } else { k + 1 };
            assert(after[t] == before[k]);
        }
        assert forall|k: int| 0 <= k < after.len() implies (#[trigger] after[k] == row
            || before.contains(after[k])) by {
            if k != p {
                let t = if k < p { k } else { k - 1 };
                assert(after[k] == before[t]);
            }
        }
    }
}

/// Filtering a collection that grew by one row: the row joins the kept ones
/// exactly when the predicate holds of it.
pub proof fn filter_one_more<T>(rest: Seq<T>, row: T, pred: spec_fn(T) -> bool)
    ensures
        rest.push(row).to_multiset().filter(pred) =~= if pred(row) {
            rest.to_multiset().filter(pred).insert(row)
        } else {
            rest.to_multiset().filter(pred)
        },
{
    broadcast use vstd::multiset::group_multiset_axioms;

    vstd::seq_lib::to_multiset_build(rest, row);
}

/// The rows that the selector keeps, each as often as it was given, in the
/// order of their ranks.
pub fn select_in_order<T: Ranked, S: Selector<T>>(rows: Vec<T>, selector: &S) -> (listed: Vec<T>)
    ensures
        listed@.to_multiset() == rows@.to_multiset().filter(kept_by::<T, S>(*selector)),
        in_order(listed@),
{
    let ghost given = rows@;
    let ghost pred = kept_by::<T, S>(*selector);
    let mut rest = rows;
    let mut listed: Vec<T> = Vec::new();
    proof {
        broadcast use vstd::multiset::group_multiset_axioms;

        assert(listed@.to_multiset() =~= Multiset::<T>::empty()) by {
            listed@.to_multiset_ensures();
        }
        assert(listed@.to_multiset().add(rest@.to_multiset().filter(pred))
            =~= given.to_multiset().filter(pred));
    }
    while rest.len() > 0
        invariant
            pred == kept_by::<T, S>(*selector),
            in_order(listed@),
            listed@.to_multiset().add(rest@.to_multiset().filter(pred))
                =~= given.to_multiset().filter(pred),
        decreases rest.len(),
    {
        let ghost before = rest@;
        let ghost listed_before = listed@;
        let row = rest.pop().unwrap();
        proof {
            assert(before =~= rest@.push(row));
            filter_one_more(rest@, row, pred);
        }
        if selector.test(&row) {
            insert_in_order(&mut listed, row);
            proof {
                broadcast use vstd::multiset::group_multiset_axioms;

                assert(listed@.to_multiset().add(rest@.to_multiset().filter(pred))
                    =~= listed_before.to_multiset().add(before.to_multiset().filter(pred)));
            }
        }
    }
    proof {
        broadcast use vstd::multiset::group_multiset_axioms;

        assert(rest@.to_multiset() =~= Multiset::<T>::empty()) by {
            rest@.to_multiset_ensures();
        }
        assert(listed@.to_multiset() =~= given.to_multiset().filter(pred));
    }
    listed
}

/// What a listing holds, row by row: every listed row was given and is kept
/// by the selector, and every given row that the selector keeps is listed.
pub proof fn listing_holds_the_kept<T, S: Selector<T>>(rows: Seq<T>, listed: Seq<T>, selector: S)
    requires
        listed.to_multiset() == rows.to_multiset().filter(kept_by::<T, S>(selector)),
    ensures
        forall|row: T| #[trigger]
            listed.contains(row) <==> rows.contains(row) && selector.keeps(&row),
{
    broadcast use vstd::multiset::group_multiset_axioms;

    listed.to_multiset_ensures();
    rows.to_multiset_ensures();
    let pred = kept_by::<T, S>(selector);
    assert forall|row: T| #[trigger]
        listed.contains(row) <==> rows.contains(row) && selector.keeps(&row) by {
        assert(listed.to_multiset().count(row) == if pred(row) {
            rows.to_multiset().count(row)
        } else {
            0
        });
    }
}

} // verus!
