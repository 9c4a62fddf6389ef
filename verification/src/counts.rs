//! Counting the rows of a table that satisfy a predicate, and how the count
//! moves when one row is added, changed or removed.

use vstd::prelude::*;

verus! {

/// How many elements of `s` satisfy `pred`.
pub open spec fn count_where<A>(s: Seq<A>, pred: spec_fn(A) -> bool) -> nat {
    s.filter(pred).len()
}

/// One where `b` holds, zero where it does not.
pub open spec fn indicator(b: bool) -> nat {
    if b {
        1
    } else {
        0
    }
}

pub proof fn lemma_count_empty<A>(pred: spec_fn(A) -> bool)
    ensures
        count_where(Seq::<A>::empty(), pred) == 0,
{
    reveal(Seq::filter);
}

/// Appending a row adds one to the count exactly where the row satisfies the
/// predicate.
pub proof fn lemma_count_push<A>(s: Seq<A>, x: A, pred: spec_fn(A) -> bool)
    ensures
        count_where(s.push(x), pred) == count_where(s, pred) + indicator(pred(x)),
{
    reveal(Seq::filter);
    assert(s.push(x).drop_last() =~= s);
    assert(s.push(x).last() == x);
}

pub proof fn lemma_count_single<A>(x: A, pred: spec_fn(A) -> bool)
    ensures
        count_where(seq![x], pred) == indicator(pred(x)),
{
    lemma_count_empty(pred);
    lemma_count_push(Seq::<A>::empty(), x, pred);
    assert(Seq::<A>::empty().push(x) =~= seq![x]);
}

/// A count splits along any cut of the sequence.
pub proof fn lemma_count_split<A>(s: Seq<A>, i: int, pred: spec_fn(A) -> bool)
    requires
        0 <= i < s.len(),
    ensures
        count_where(s, pred) == count_where(s.take(i), pred) + indicator(pred(s[i])) + count_where(
            s.skip(i + 1),
            pred,
        ),
{
    let head = s.take(i);
    let mid = seq![s[i]];
    let tail = s.skip(i + 1);
    assert(s =~= (head + mid) + tail);
    Seq::filter_distributes_over_add(head + mid, tail, pred);
    Seq::filter_distributes_over_add(head, mid, pred);
    lemma_count_single(s[i], pred);
}

/// Replacing row `i` moves the count by what the old row and the new row
/// contribute.
pub proof fn lemma_count_update<A>(s: Seq<A>, i: int, x: A, pred: spec_fn(A) -> bool)
    requires
        0 <= i < s.len(),
    ensures
        count_where(s.update(i, x), pred) + indicator(pred(s[i])) == count_where(s, pred)
            + indicator(pred(x)),
{
    let t = s.update(i, x);
    lemma_count_split(s, i, pred);
    lemma_count_split(t, i, pred);
    assert(t.take(i) =~= s.take(i));
    assert(t.skip(i + 1) =~= s.skip(i + 1));
}

/// Removing row `i` takes away what that row contributed.
pub proof fn lemma_count_remove<A>(s: Seq<A>, i: int, pred: spec_fn(A) -> bool)
    requires
        0 <= i < s.len(),
    ensures
        count_where(s.remove(i), pred) + indicator(pred(s[i])) == count_where(s, pred),
{
    let t = s.remove(i);
    lemma_count_split(s, i, pred);
    assert(t =~= s.take(i) + s.skip(i + 1));
    Seq::filter_distributes_over_add(s.take(i), s.skip(i + 1), pred);
}

} // verus!
