//! Lists with gaps, and totals.
use vstd::prelude::*;

verus! {

/// The values that are present in a list, in order.
pub open spec fn present<A>(items: Seq<Option<A>>) -> Seq<A>
    decreases items.len(),
{
    if items.len() == 0 {
        Seq::empty()
    } else {
        let before = present(items.drop_last());
        match items.last() {
            Some(item) => before.push(item),
            None => before,
        }
    }
}

/// How many values are present before the `i`-th item.
pub open spec fn present_before<A>(items: Seq<Option<A>>, i: int) -> int {
    present(items.take(i)).len() as int
}

/// A value that is present stands after those that are present before it.
pub proof fn lemma_present_at<A>(items: Seq<Option<A>>, i: int)
    requires
        0 <= i < items.len(),
        items[i] is Some,
    ensures
        present_before(items, i) < present(items).len(),
        present(items)[present_before(items, i)] == items[i]->0,
    decreases items.len(),
{
    let before = items.drop_last();
    if i < before.len() {
        assert(before.take(i) =~= items.take(i));
        lemma_present_at(before, i);
    } else {
        assert(items.take(i) =~= before);
    }
}

/// A value that is present comes from one of the items.
pub proof fn lemma_present_from<A>(items: Seq<Option<A>>, k: int) -> (i: int)
    requires
        0 <= k < present(items).len(),
    ensures
        0 <= i < items.len(),
        items[i] == Some(present(items)[k]),
        present_before(items, i) == k,
    decreases items.len(),
{
    let before = items.drop_last();
    if k < present(before).len() {
        let i = lemma_present_from(before, k);
        assert(before.take(i) =~= items.take(i));
        i
    } else {
        assert(items.take(items.len() - 1) =~= before);
        items.len() - 1
    }
}

/// Values that are present keep their order.
pub proof fn lemma_present_order<A>(items: Seq<Option<A>>, i: int, j: int)
    requires
        0 <= i < j <= items.len(),
        items[i] is Some,
    ensures
        present_before(items, i) < present_before(items, j),
{
    assert(items.take(j).take(i) =~= items.take(i));
    lemma_present_at(items.take(j), i);
}

/// The sum of the first `n` counts.
pub open spec fn total(counts: Seq<nat>, n: nat) -> nat
    decreases n,
{
    if n == 0 {
        0
    } else {
        total(counts, (n - 1) as nat) + counts[n - 1]
    }
}

} // verus!
