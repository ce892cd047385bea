//! Frames that were handed to the device and have not come back yet.
use std::collections::HashMap;
use vstd::prelude::*;
use vstd::std_specs::iter::IteratorSpec;

verus! {

broadcast use vstd::std_specs::hash::group_hash_axioms;

/// What is remembered of pending frames, each under its sequence number.
#[derive(Debug)]
pub struct PendingFrameStore<P> {
    by_frame_seq: HashMap<u64, P>,
}

impl<P> View for PendingFrameStore<P> {
    type V = Map<u64, P>;

    closed spec fn view(&self) -> Map<u64, P> {
        self.by_frame_seq@
    }
}

/// Whether `order` lists the members of `set`, each once.
pub open spec fn lists(order: Seq<u64>, set: Set<u64>) -> bool {
    order.no_duplicates() && order.to_set() == set
}

/// Whether `drained` is the content of `pending`, in some order.
pub open spec fn is_content<P>(drained: Seq<(u64, P)>, pending: Map<u64, P>) -> bool {
    &&& lists(drained.map_values(|entry: (u64, P)| entry.0), pending.dom())
    &&& forall|i: int| 0 <= i < drained.len() ==> pending[(#[trigger] drained[i]).0] == drained[i].1
}

/// What was drained is as much as was pending.
pub proof fn lemma_content_len<P>(drained: Seq<(u64, P)>, pending: Map<u64, P>)
    requires
        is_content(drained, pending),
    ensures
        drained.len() == pending.len(),
        pending.dom().finite(),
{
    let order = drained.map_values(|entry: (u64, P)| entry.0);
    order.unique_seq_to_set();
}

impl<P> PendingFrameStore<P> {
    /// A store without pending frames.
    pub fn new() -> (r: Self)
        ensures
            r@ == Map::<u64, P>::empty(),
    {
        PendingFrameStore { by_frame_seq: HashMap::new() }
    }

    /// Remembers a pending frame, and returns what was remembered under its number before.
    pub fn insert(&mut self, frame_seq: u64, pending: P) -> (r: Option<P>)
        ensures
            final(self)@ == old(self)@.insert(frame_seq, pending),
            r == (if old(self)@.contains_key(frame_seq) {
                Some(old(self)@[frame_seq])
            } else {
                None
            }),
    {
        self.by_frame_seq.insert(frame_seq, pending)
    }

    /// Forgets a pending frame and returns what was remembered of it.
    pub fn take_by_frame_seq(&mut self, frame_seq: u64) -> (r: Option<P>)
        ensures
            final(self)@ == old(self)@.remove(frame_seq),
            r == (if old(self)@.contains_key(frame_seq) {
                Some(old(self)@[frame_seq])
            } else {
                None
            }),
    {
        let taken = self.by_frame_seq.remove(&frame_seq);
        assert(self@ =~= old(self)@.remove(frame_seq));
        taken
    }

    /// Whether no frame is pending.
    pub fn is_empty(&self) -> (r: bool)
        ensures
            r == (self@ == Map::<u64, P>::empty()),
    {
        let empty = self.by_frame_seq.is_empty();
        if empty {
            assert(self@ =~= Map::<u64, P>::empty()) by {
                assert(self@.dom().len() == 0);
                assert(self@.dom().finite());
            }
        }
        empty
    }

    /// The number of pending frames.
    pub fn len(&self) -> (r: usize)
        ensures
            r == self@.len(),
            self@.dom().finite(),
    {
        self.by_frame_seq.len()
    }

    /// Forgets all pending frames and returns them, in no particular order.
    pub fn drain_all(&mut self) -> (r: Vec<(u64, P)>)
        ensures
            is_content(r@, old(self)@),
            final(self)@ == Map::<u64, P>::empty(),
    {
        let ghost before = self@;
        let mut keys: Vec<u64> = Vec::new();
        let ghost order = self.by_frame_seq.keys().remaining().unref();
        for key in it: self.by_frame_seq.keys()
            invariant
                it.seq().unref() == order,
                keys@ == order.take(it.index() as int),
        {
            keys.push(*key);
            assert(keys@ =~= order.take(it.index() + 1));
        }
        proof {
            assert(keys@ =~= order);
            assert(order.no_duplicates());
        }
        let mut drained: Vec<(u64, P)> = Vec::new();
        let mut i: usize = 0;
        while i < keys.len()
            invariant
                i <= keys@.len(),
                lists(keys@, before.dom()),
                drained@.len() == i,
                forall|k: int| 0 <= k < i ==> (#[trigger] drained@[k]).0 == keys@[k],
                forall|k: int| 0 <= k < i ==> before[(#[trigger] drained@[k]).0] == drained@[k].1,
                forall|k: u64|
                    self@.contains_key(k) <==> before.contains_key(k) && !keys@.take(
                        i as int,
                    ).contains(k),
                forall|k: u64| self@.contains_key(k) ==> self@[k] == before[k],
            decreases keys@.len() - i,
        {
            let key: u64 = keys[i];
            let ghost held = self@;
            let ghost done = keys@.take(i as int);
            proof {
                broadcast use vstd::seq_lib::group_seq_properties;

                assert(keys@.to_set().contains(key));
                assert(!done.contains(key));
            }
            match self.take_by_frame_seq(key) {
                Some(pending) => {
                    drained.push((key, pending));
                },
                None => {},
            }
            i = i + 1;
            assert forall|k: u64|
                self@.contains_key(k) <==> before.contains_key(k) && !keys@.take(
                    i as int,
                ).contains(k) by {
                broadcast use vstd::seq_lib::group_seq_properties;

                assert(keys@.take(i as int) =~= done.push(key));
                assert(self@.contains_key(k) <==> held.contains_key(k) && k != key);
                assert(held.contains_key(k) <==> before.contains_key(k) && !done.contains(k));
            }
        }
        assert(drained@.map_values(|entry: (u64, P)| entry.0) =~= keys@);
        assert(keys@.take(i as int) =~= keys@);
        assert(self@ =~= Map::<u64, P>::empty()) by {
            assert forall|k: u64| !self@.contains_key(k) by {
                if before.contains_key(k) {
                    assert(keys@.to_set().contains(k));
                }
            }
        }
        drained
    }
}

} // verus!
