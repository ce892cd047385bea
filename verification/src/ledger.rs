//! What the commands of a worker do to its pending frames, whatever a frame is.
use vstd::prelude::*;

use crate::sequence::total;

verus! {

/// What a command does to the pending frames.
pub enum Entry<P> {
    /// A frame becomes pending under a number.
    Queue(u64, P),
    /// The frame that is pending under a number is pending no more.
    Settle(u64),
    /// Nothing is pending any more.
    Clear,
    /// All stays as it is.
    Keep,
}

impl<P> Entry<P> {
    /// Whether the entry leads from these pending frames to those.
    pub open spec fn leads(self, before: Map<u64, P>, after: Map<u64, P>) -> bool {
        match self {
            Entry::Queue(number, frame) => after == before.insert(number, frame),
            Entry::Settle(number) => before.contains_key(number) && after == before.remove(number),
            Entry::Clear => after == Map::<u64, P>::empty(),
            Entry::Keep => after == before,
        }
    }
}

/// Whether the entries lead through these stores of pending frames, the first of which is empty.
pub open spec fn is_ledger<P>(stores: Seq<Map<u64, P>>, entries: Seq<Entry<P>>) -> bool {
    &&& stores.len() == entries.len() + 1
    &&& stores[0] == Map::<u64, P>::empty()
    &&& forall|i: int|
        0 <= i < entries.len() ==> (#[trigger] entries[i]).leads(stores[i], stores[i + 1])
}

/// Whether every frame is queued under a number above those before it.
pub open spec fn entries_ascend<P>(entries: Seq<Entry<P>>) -> bool {
    forall|i: int, j: int|
        0 <= i < j < entries.len() && #[trigger] entries[i] is Queue && #[trigger] entries[j] is Queue
            ==> entries[i]->Queue_0 < entries[j]->Queue_0
}

/// Only so many frames are pending at any point.
pub proof fn lemma_pending_is_finite<P>(stores: Seq<Map<u64, P>>, entries: Seq<Entry<P>>, n: int)
    requires
        is_ledger(stores, entries),
        0 <= n <= entries.len(),
    ensures
        stores[n].dom().finite(),
    decreases n,
{
    if n > 0 {
        lemma_pending_is_finite(stores, entries, n - 1);
        assert(entries[n - 1].leads(stores[n - 1], stores[n]));
    }
}

/// What is pending was queued.
pub proof fn lemma_pending_was_queued<P>(
    stores: Seq<Map<u64, P>>,
    entries: Seq<Entry<P>>,
    n: int,
    number: u64,
) -> (i: int)
    requires
        is_ledger(stores, entries),
        0 <= n <= entries.len(),
        stores[n].contains_key(number),
    ensures
        0 <= i < n,
        entries[i] == Entry::Queue(number, stores[n][number]),
    decreases n,
{
    assert(n > 0);
    assert(entries[n - 1].leads(stores[n - 1], stores[n]));
    if entries[n - 1] == Entry::Queue(number, stores[n][number]) {
        n - 1
    } else {
        lemma_pending_was_queued(stores, entries, n - 1, number)
    }
}

/// What was settled is not pending again, as no later frame gets its number.
proof fn lemma_settled_is_gone<P>(
    stores: Seq<Map<u64, P>>,
    entries: Seq<Entry<P>>,
    i: int,
    k: int,
    m: int,
    number: u64,
)
    requires
        is_ledger(stores, entries),
        entries_ascend(entries),
        0 <= i < k < m <= entries.len(),
        entries[i] is Queue,
        entries[i]->Queue_0 == number,
        entries[k] == Entry::<P>::Settle(number),
    ensures
        !stores[m].contains_key(number),
    decreases m - k,
{
    let last = m - 1;
    assert(entries[last].leads(stores[last], stores[m]));
    if k < last {
        lemma_settled_is_gone(stores, entries, i, k, last, number);
        assert(entries[last] is Queue ==> entries[i]->Queue_0 < entries[last]->Queue_0);
    }
}

/// A number is settled once.
pub proof fn lemma_settled_once<P>(
    stores: Seq<Map<u64, P>>,
    entries: Seq<Entry<P>>,
    number: u64,
    k: int,
    l: int,
)
    requires
        is_ledger(stores, entries),
        entries_ascend(entries),
        0 <= k < entries.len(),
        0 <= l < entries.len(),
        entries[k] == Entry::<P>::Settle(number),
        entries[l] == Entry::<P>::Settle(number),
    ensures
        k == l,
{
    let first = if k < l { k } else { l };
    let second = if k < l { l } else { k };
    if first < second {
        assert(entries[first].leads(stores[first], stores[first + 1]));
        assert(entries[second].leads(stores[second], stores[second + 1]));
        let i = lemma_pending_was_queued(stores, entries, first, number);
        lemma_settled_is_gone(stores, entries, i, first, second, number);
    }
}

/// A frame that was queued stays pending until it is settled, if nothing is cleared away.
pub proof fn lemma_pending_until_settled<P>(
    stores: Seq<Map<u64, P>>,
    entries: Seq<Entry<P>>,
    i: int,
    m: int,
    number: u64,
    frame: P,
)
    requires
        is_ledger(stores, entries),
        entries_ascend(entries),
        0 <= i < m <= entries.len(),
        entries[i] == Entry::Queue(number, frame),
        forall|j: int|
            i < j < m && #[trigger] entries[j] is Clear ==> !stores[j].contains_key(number),
    ensures
        (stores[m].contains_key(number) && stores[m][number] == frame) || exists|k: int|
            i < k < m && #[trigger] entries[k] == Entry::<P>::Settle(number)
                && stores[k].contains_key(number) && stores[k][number] == frame,
    decreases m - i,
{
    let last = m - 1;
    assert(entries[last].leads(stores[last], stores[m]));
    if i < last {
        lemma_pending_until_settled(stores, entries, i, last, number, frame);
        assert(entries[last] is Queue ==> entries[i]->Queue_0 < entries[last]->Queue_0);
    }
}

/// If each command tells of as many frames as it adds to those owed and takes from those pending,
/// what was told and what is pending add up to what was owed.
pub proof fn lemma_told_and_pending_are_owed<P>(
    stores: Seq<Map<u64, P>>,
    told: Seq<nat>,
    owed: Seq<nat>,
    n: nat,
)
    requires
        n < stores.len(),
        stores[0] == Map::<u64, P>::empty(),
        forall|i: int|
            0 <= i < n ==> #[trigger] told[i] + stores[i + 1].len() == stores[i].len() + owed[i],
    ensures
        total(told, n) + stores[n as int].len() == total(owed, n),
    decreases n,
{
    if n > 0 {
        lemma_told_and_pending_are_owed(stores, told, owed, (n - 1) as nat);
        assert(told[n - 1] + stores[n as int].len() == stores[n - 1].len() + owed[n - 1]);
    }
}

} // verus!
