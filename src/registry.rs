//! The peer registry: every live session's outbound channel, keyed by its
//! connection id, and the fan-out of one message to every peer but its
//! sender.
//!
//! The registry is a plain value; whoever shares it between sessions holds
//! it behind one lock, and each operation here is one short critical section
//! with no suspension point in it.
use crate::buf::{share, shared_bytes};
use bytes::Bytes;
use futures::sync::mpsc::UnboundedSender;
use std::collections::HashMap;
use vstd::prelude::*;
use vstd::std_specs::iter::IteratorSpec;

verus! {

broadcast use vstd::std_specs::hash::group_hash_axioms;

#[verifier::external_type_specification]
#[verifier::external_body]
#[verifier::reject_recursive_types(T)]
pub struct ExUnboundedSender<T>(UnboundedSender<T>);

/// The messages handed to the channel under `id`, in the order they were
/// handed, given the log of every hand-off the registry made.
pub open spec fn delivered_to(log: Seq<(u64, Seq<u8>)>, id: u64) -> Seq<Seq<u8>>
    decreases log.len(),
{
    if log.len() == 0 {
        Seq::empty()
    } else {
        let prev = delivered_to(log.drop_last(), id);
        if log.last().0 == id {
            prev.push(log.last().1)
        } else {
            prev
        }
    }
}

/// The ids that a broadcast from `sender` reaches, given the registered ids.
pub open spec fn recipients(ids: Set<u64>, sender: u64) -> Set<u64> {
    ids.remove(sender)
}

/// With `n` peers registered besides the sender, a broadcast reaches
/// exactly `n` of them, each once, and never the sender itself.
pub proof fn lemma_broadcast_reaches_others(ids: Set<u64>, sender: u64, reached: Seq<u64>)
    requires
        ids.finite(),
        reached.to_set() == recipients(ids, sender),
        reached.no_duplicates(),
    ensures
        reached.len() == (if ids.contains(sender) { ids.len() - 1 } else { ids.len() as int }),
        !reached.contains(sender),
        forall|k: u64| ids.contains(k) && k != sender ==> reached.contains(k),
{
    reached.unique_seq_to_set();
    if ids.contains(sender) {
        assert(ids.remove(sender).len() == ids.len() - 1);
    } else {
        assert(ids.remove(sender) =~= ids);
    }
    if reached.contains(sender) {
        assert(reached.to_set().contains(sender));
    }
    assert forall|k: u64| ids.contains(k) && k != sender implies reached.contains(k) by {
        assert(reached.to_set().contains(k));
    }
}

/// Once an id is removed, a broadcast made from the registry that is left,
/// by any sender, does not reach it.
pub proof fn lemma_removed_not_reached(ids: Set<u64>, removed: u64, sender: u64)
    ensures
        !recipients(ids.remove(removed), sender).contains(removed),
{
}

/// Connection id to outbound channel, for every session that is alive and
/// accepting broadcasts.
pub struct PeerRegistry {
    peers: HashMap<u64, UnboundedSender<Bytes>>,
    handed: Ghost<Seq<(u64, Seq<u8>)>>,
}

impl View for PeerRegistry {
    type V = Set<u64>;

    /// The ids of the registered sessions.
    closed spec fn view(&self) -> Set<u64> {
        self.peers@.dom()
    }
}

impl PeerRegistry {
    /// Every hand-off of a message to a channel that the registry made, in
    /// order: the id whose channel was handed it, and the message's bytes.
    pub closed spec fn handed(&self) -> Seq<(u64, Seq<u8>)> {
        self.handed@
    }

    /// An empty registry.
    pub fn new() -> (r: Self)
        ensures
            r@ == Set::<u64>::empty(),
            r.handed() == Seq::<(u64, Seq<u8>)>::empty(),
    {
        let r = PeerRegistry { peers: HashMap::new(), handed: Ghost(Seq::empty()) };
        assert(r@ =~= Set::<u64>::empty());
        r
    }

    /// Registers a session's channel under its id, once, at join.
    pub fn insert(&mut self, id: u64, tx: UnboundedSender<Bytes>)
        requires
            !old(self)@.contains(id),
        ensures
            final(self)@ == old(self)@.insert(id),
            final(self).handed() == old(self).handed(),
    {
        self.peers.insert(id, tx);
        assert(self@ =~= old(self)@.insert(id));
    }

    /// Unregisters a session; an id that is not registered is left alone.
    pub fn remove(&mut self, id: u64)
        ensures
            final(self)@ == old(self)@.remove(id),
            final(self).handed() == old(self).handed(),
    {
        let _gone = self.peers.remove(&id);
        assert(self@ =~= old(self)@.remove(id));
    }

    /// Whether a session is registered under `id`.
    pub fn contains(&self, id: u64) -> (r: bool)
        ensures
            r == self@.contains(id),
    {
        self.peers.contains_key(&id)
    }

    /// The number of registered sessions.
    pub fn len(&self) -> (r: usize)
        ensures
            r == self@.len(),
    {
        self.peers.len()
    }

    /// Relies on indexing the map, which the `requires` makes safe, and on
    /// `futures::sync::mpsc::UnboundedSender::unbounded_send`: it queues the
    /// message on the channel registered under `id` without blocking, and
    /// fails only when the receiving half is gone; a failure is ignored.
    /// Whether the receiver still listens is up to it, so what is recorded
    /// is the hand-off, not a delivery.
    #[verifier::external_body]
    fn hand_to(&mut self, id: u64, msg: Bytes)
        requires
            old(self).peers@.contains_key(id),
        ensures
            final(self).peers@ == old(self).peers@,
            final(self).handed() == old(self).handed().push((id, shared_bytes(msg))),
    {
        let _ = self.peers[&id].unbounded_send(msg);
    }

    /// The registered ids other than `sender`, each once.
    fn others(&self, sender: u64) -> (r: Vec<u64>)
        ensures
            r@.to_set() == recipients(self@, sender),
            r@.no_duplicates(),
            r@.len() == recipients(self@, sender).len(),
    {
        let mut out: Vec<u64> = Vec::new();
        let ghost m = self.peers@;
        let ghost items = vstd::std_specs::hash::spec_hash_map_iter(&self.peers).remaining();
        let ghost mut seen: Seq<u64> = Seq::empty();
        for entry in it: self.peers.iter()
            invariant
                m == self.peers@,
                it.seq() == items,
                items.no_duplicates(),
                items.len() == m.dom().len(),
                forall|j: int|
                    0 <= j < items.len() ==> m.contains_key(*items[j].0) && m[*items[j].0]
                        == *items[j].1,
                seen.len() == it.index(),
                forall|j: int| 0 <= j < it.index() ==> seen[j] == *items[j].0,
                out@.no_duplicates(),
                forall|k: u64| #[trigger] out@.contains(k) <==> (k != sender && seen.contains(k)),
            ensures
                seen.len() == items.len(),
                forall|j: int| 0 <= j < seen.len() ==> seen[j] == *items[j].0,
                forall|k: u64| #[trigger] out@.contains(k) <==> (k != sender && seen.contains(k)),
                out@.no_duplicates(),
        {
            let ghost i = seen.len() as int;
            let ghost before = seen;
            let ghost out_before = out@;
            proof {
                assert(entry == items[i]);
                assert forall|j: int| 0 <= j < i implies seen[j] != *entry.0 by {
                    if seen[j] == *entry.0 {
                        assert(items[j] == items[i]);
                    }
                }
                assert(!seen.contains(*entry.0));
                seen = seen.push(*entry.0);
                assert forall|k: u64| seen.contains(k) <==> (before.contains(k) || k == *entry.0) by {
                    if seen.contains(k) && k != *entry.0 {
                        let j = choose|j: int| 0 <= j < seen.len() && seen[j] == k;
                        assert(before[j] == k);
                    }
                    if k == *entry.0 {
                        assert(seen[i] == k);
                    }
                    if before.contains(k) {
                        let j = choose|j: int| 0 <= j < before.len() && before[j] == k;
                        assert(seen[j] == k);
                    }
                }
            }
            let (id, _tx) = entry;
            if *id != sender {
                assert(!out@.contains(*id));
                out.push(*id);
            }
            assert forall|k: u64| #[trigger] out@.contains(k) <==> (k != sender && seen.contains(k)) by {
                if k == *id && k != sender {
                    assert(out@[out@.len() - 1] == k);
                }
                if out@.contains(k) {
                    let j = choose|j: int| 0 <= j < out@.len() && out@[j] == k;
                    if j < out_before.len() {
                        assert(out_before[j] == k);
                        assert(out_before.contains(k));
                    }
                }
                if before.contains(k) && k != sender {
                    assert(out_before.contains(k));
                    let j = choose|j: int| 0 <= j < out_before.len() && out_before[j] == k;
                    assert(out@[j] == k);
                }
            }
        }
        assert forall|k: u64| m.dom().contains(k) implies seen.contains(k) by {
            assert(items.contains((&k, &m[k])));
            let j = choose|j: int| 0 <= j < items.len() && items[j] == (&k, &m[k]);
            assert(seen[j] == k);
        }
        assert forall|k: u64| seen.contains(k) implies m.dom().contains(k) by {
            let j = choose|j: int| 0 <= j < seen.len() && seen[j] == k;
        }
        assert(out@.to_set() =~= recipients(self@, sender));
        proof {
            out@.unique_seq_to_set();
        }
        out
    }

    /// Hands a shared handle to `msg` to the channel of every registered
    /// session but the sender, each once, and returns their ids in the order
    /// they were handed it. Nothing goes to the sender's own channel. A send
    /// that fails because the receiver is gone is ignored: that session is
    /// being torn down and removes itself.
    pub fn broadcast(&mut self, sender: u64, msg: &Bytes) -> (r: Vec<u64>)
        ensures
            final(self)@ == old(self)@,
            r@.to_set() == recipients(old(self)@, sender),
            r@.no_duplicates(),
            r@.len() == recipients(old(self)@, sender).len(),
            final(self).handed() == old(self).handed() + r@.map_values(
                |id: u64| (id, shared_bytes(*msg)),
            ),
            forall|id: u64|
                #[trigger] delivered_to(final(self).handed(), id) == delivered_to(
                    old(self).handed(),
                    id,
                ) + if recipients(old(self)@, sender).contains(id) {
                    seq![shared_bytes(*msg)]
                } else {
                    Seq::<Seq<u8>>::empty()
                },
    {
        let ids = self.others(sender);
        let ghost h0 = self.handed();
        let ghost bytes = shared_bytes(*msg);
        let mut i: usize = 0;
        while i < ids.len()
            invariant
                i <= ids@.len(),
                self.peers@ == old(self).peers@,
                h0 == old(self).handed(),
                bytes == shared_bytes(*msg),
                ids@.to_set() == recipients(old(self)@, sender),
                ids@.no_duplicates(),
                self.handed() == h0 + ids@.subrange(0, i as int).map_values(
                    |id: u64| (id, bytes),
                ),
                forall|id: u64|
                    #[trigger] delivered_to(self.handed(), id) == delivered_to(h0, id) + if ids@.subrange(
                        0,
                        i as int,
                    ).contains(id) {
                        seq![bytes]
                    } else {
                        Seq::<Seq<u8>>::empty()
                    },
            decreases ids@.len() - i,
        {
            let id = ids[i];
            proof {
                assert(ids@.to_set().contains(id));
            }
            let ghost prev = self.handed();
            let ghost seen = ids@.subrange(0, i as int);
            self.hand_to(id, share(msg));
            proof {
                let next = ids@.subrange(0, i + 1);
                assert(next =~= seen.push(id));
                assert(!seen.contains(id)) by {
                    if seen.contains(id) {
                        let j = choose|j: int| 0 <= j < seen.len() && seen[j] == id;
                        assert(ids@[j] == ids@[i as int]);
                    }
                }
                assert(self.handed().drop_last() =~= prev);
                assert(self.handed() =~= h0 + next.map_values(|id: u64| (id, bytes)));
                assert forall|k: u64| #[trigger]
                    delivered_to(self.handed(), k) == delivered_to(h0, k) + if next.contains(k) {
                        seq![bytes]
                    } else {
                        Seq::<Seq<u8>>::empty()
                    } by {
                    assert(delivered_to(prev, k) == delivered_to(h0, k) + if seen.contains(k) {
                        seq![bytes]
                    } else {
                        Seq::<Seq<u8>>::empty()
                    });
                    if k == id {
                        assert(next[i as int] == k);
                        assert(delivered_to(h0, k) + seq![bytes] =~= (delivered_to(h0, k)
                            + Seq::<Seq<u8>>::empty()).push(bytes));
                    } else {
                        if next.contains(k) {
                            let j = choose|j: int| 0 <= j < next.len() && next[j] == k;
                            assert(seen[j] == k);
                        }
                        if seen.contains(k) {
                            let j = choose|j: int| 0 <= j < seen.len() && seen[j] == k;
                            assert(next[j] == k);
                        }
                    }
                }
            }
            i = i + 1;
        }
        proof {
            assert(ids@.subrange(0, ids@.len() as int) =~= ids@);
            assert forall|id: u64| ids@.contains(id) == recipients(old(self)@, sender).contains(id) by {
                if ids@.contains(id) {
                    assert(ids@.to_set().contains(id));
                }
            }
        }
        ids
    }
}


} // verus!
