//! Subscription registry: maps a target id to the subscribers that want
//! its notifications, in insertion order, with scoped handles whose
//! release stops delivery.
//!
//! Callbacks themselves run outside the library; the registry decides,
//! for each notification, exactly which subscription slots are hit and
//! in what order.

use vstd::prelude::*;

verus! {

struct SubscriptionEntry {
    target_id: String,
    active: bool,
}

/// The registry: one slot per subscription ever made, in insertion
/// order; a released slot stays behind, inactive, so indices never move.
pub struct SubscriptionRegistry {
    entries: Vec<SubscriptionEntry>,
}

/// A scoped subscription: the target it listens to and its slot index.
/// Releasing it through `unsubscribe` stops delivery to that slot.
pub struct SubscriptionHandle {
    pub target_id: String,
    pub index: usize,
}

/// The slot indices that a notification for `t` hits, ascending: every
/// active slot subscribed to `t`, in insertion order.
pub open spec fn dispatch_spec(entries: Seq<(Seq<char>, bool)>, t: Seq<char>) -> Seq<int>
    decreases entries.len(),
{
    if entries.len() == 0 {
        Seq::empty()
    } else {
        let pre = dispatch_spec(entries.drop_last(), t);
        if entries.last().0 == t && entries.last().1 {
            pre.push(entries.len() - 1)
        } else {
            pre
        }
    }
}

impl SubscriptionRegistry {
    /// The slots, in insertion order: each subscription's target and
    /// whether it is still active.
    pub closed spec fn view(&self) -> Seq<(Seq<char>, bool)> {
        self.entries@.map_values(|e: SubscriptionEntry| (e.target_id@, e.active))
    }

    pub fn new() -> (r: Self)
        ensures
            r.view() =~= Seq::<(Seq<char>, bool)>::empty(),
    {
        SubscriptionRegistry { entries: Vec::new() }
    }

    /// Adds a subscription for `target_id` and hands back its scoped
    /// handle; delivery to it starts at once.
    pub fn subscribe(&mut self, target_id: String) -> (h: SubscriptionHandle)
        ensures
            final(self).view() == old(self).view().push((target_id@, true)),
            h.index == old(self).view().len(),
            h.target_id@ == target_id@,
    {
        let index = self.entries.len();
        let handle_target = target_id.clone();
        self.entries.push(SubscriptionEntry { target_id, active: true });
        proof {
            assert(self.view() =~= old(self).view().push((target_id@, true)));
        }
        SubscriptionHandle { target_id: handle_target, index }
    }

    /// Releases the handle's slot: from now on no dispatch hits it. The
    /// slot's place is kept so that no other handle moves.
    pub fn unsubscribe(&mut self, h: &SubscriptionHandle)
        ensures
            h.index < old(self).view().len() ==> final(self).view() == old(self).view().update(
                h.index as int,
                (old(self).view()[h.index as int].0, false),
            ),
            h.index >= old(self).view().len() ==> *final(self) == *old(self),
    {
        if h.index < self.entries.len() {
            let ghost prev = self.entries@;
            let target = self.entries.remove(h.index);
            self.entries.insert(h.index, SubscriptionEntry { target_id: target.target_id, active: false });
            proof {
                prev.remove_ensures(h.index as int);
                assert(self.entries@ =~= prev.update(
                    h.index as int,
                    SubscriptionEntry { target_id: prev[h.index as int].target_id, active: false },
                ));
                assert(self.view() =~= old(self).view().update(
                    h.index as int,
                    (old(self).view()[h.index as int].0, false),
                ));
            }
        }
    }

    /// The slot indices that a notification for `target_id` hits, in
    /// insertion order, exactly as `dispatch_spec` says.
    pub fn dispatch_targets(&self, target_id: &String) -> (idxs: Vec<usize>)
        ensures
            idxs@.map_values(|u: usize| u as int) == dispatch_spec(self.view(), target_id@),
    {
        let mut idxs: Vec<usize> = Vec::new();
        let mut i: usize = 0;
        while i < self.entries.len()
            invariant
                i <= self.entries@.len(),
                idxs@.map_values(|u: usize| u as int) == dispatch_spec(
                    self.view().subrange(0, i as int),
                    target_id@,
                ),
                forall|j: int| 0 <= j < idxs@.len() ==> #[trigger] idxs@[j] < i,
            decreases self.entries@.len() - i,
        {
            let ghost pre = self.view().subrange(0, i as int);
            let ghost post = self.view().subrange(0, i + 1);
            assert(post.drop_last() =~= pre);
            assert(post.last() == self.view()[i as int]);
            if self.entries[i].active && self.entries[i].target_id == *target_id {
                idxs.push(i);
                proof {
                    assert(idxs@.map_values(|u: usize| u as int) =~= dispatch_spec(
                        pre,
                        target_id@,
                    ).push(i as int));
                }
            }
            i += 1;
        }
        proof {
            assert(self.view().subrange(0, self.view().len() as int) =~= self.view());
        }
        idxs
    }
}

/// Subscription lifecycle, second half: while a subscription is active,
/// every dispatch for its target hits it, and the hits come in insertion
/// order (the index sequence is strictly ascending).
pub proof fn lemma_dispatch_complete_in_order(entries: Seq<(Seq<char>, bool)>, t: Seq<char>)
    ensures
        forall|j: int| #[trigger] dispatch_spec(entries, t).contains(j) <==> (0 <= j
            < entries.len() && entries[j].0 == t && entries[j].1),
        forall|a: int, b: int| 0 <= a < b < dispatch_spec(entries, t).len() ==> dispatch_spec(
            entries,
            t,
        )[a] < dispatch_spec(entries, t)[b],
    decreases entries.len(),
{
    if entries.len() > 0 {
        lemma_dispatch_complete_in_order(entries.drop_last(), t);
        let pre = dispatch_spec(entries.drop_last(), t);
        let post = dispatch_spec(entries, t);
        assert forall|j: int| 0 <= j < pre.len() implies pre[j] < entries.len() - 1 by {
            assert(pre.contains(pre[j]));
        }
        if entries.last().0 == t && entries.last().1 {
            assert(post == pre.push(entries.len() - 1));
            assert forall|j: int| #[trigger] post.contains(j) implies (0 <= j < entries.len()
                && entries[j].0 == t && entries[j].1) by {
                let w = choose|w: int| 0 <= w < post.len() && post[w] == j;
                if w < pre.len() {
                    assert(pre.contains(j));
                    assert(entries.drop_last()[j] == entries[j]);
                } else {
                    assert(j == entries.len() - 1);
                }
            }
            assert forall|j: int| (0 <= j < entries.len() && entries[j].0 == t && entries[j].1)
                implies #[trigger] post.contains(j) by {
                if j < entries.len() - 1 {
                    assert(entries.drop_last()[j] == entries[j]);
                    assert(pre.contains(j));
                    let w = choose|w: int| 0 <= w < pre.len() && pre[w] == j;
                    assert(post[w] == j);
                } else {
                    assert(post[post.len() - 1] == j);
                }
            }
        } else {
            assert(post == pre);
            assert forall|j: int| #[trigger] post.contains(j) implies (0 <= j < entries.len()
                && entries[j].0 == t && entries[j].1) by {
                assert(pre.contains(j));
                assert(entries.drop_last()[j] == entries[j]);
            }
            assert forall|j: int| (0 <= j < entries.len() && entries[j].0 == t && entries[j].1)
                implies #[trigger] post.contains(j) by {
                assert(j != entries.len() - 1);
                assert(entries.drop_last()[j] == entries[j]);
            }
        }
    }
}

/// Subscription lifecycle, first half: after a handle's slot is released,
/// no dispatch for any target hits that slot again.
pub proof fn lemma_unsubscribe_stops_dispatch(entries: Seq<(Seq<char>, bool)>, i: int, t: Seq<char>)
    requires
        0 <= i < entries.len(),
    ensures
        !dispatch_spec(entries.update(i, (entries[i].0, false)), t).contains(i),
{
    let updated = entries.update(i, (entries[i].0, false));
    lemma_dispatch_complete_in_order(updated, t);
    assert(!updated[i].1);
}

} // verus!
