//! Request registry: allocates request ids, parks each caller's one-shot
//! completion slot under its id, and routes responses back by id.
//!
//! Ids come from a 32-bit counter that wraps around; while a request is
//! in flight its id is unique in the registry.

use vstd::prelude::*;

verus! {

#[verifier::external_type_specification]
#[verifier::external_body]
#[verifier::reject_recursive_types(T)]
pub struct ExSender<T>(async_oneshot::Sender<T>);

/// A worker's verdict on one request, routed back to the parked caller.
pub enum ResponseOutcome {
    /// The worker accepted; `data` is the response body, absent when the
    /// worker sent none.
    Accepted { data: Option<serde_json::Value> },
    /// The worker refused the request, with its reason verbatim.
    Rejected { reason: String },
}

struct PendingSlot {
    id: u32,
    sender: async_oneshot::Sender<ResponseOutcome>,
}

/// The registry of in-flight requests: the next id to hand out, and one
/// completion slot per outstanding id.
pub struct RequestRegistry {
    next_id: u32,
    pending: Vec<PendingSlot>,
}

/// The id counter's successor, wrapping at the 32-bit boundary.
pub open spec fn wrap_inc(x: u32) -> u32 {
    if x == u32::MAX {
        0
    } else {
        (x + 1) as u32
    }
}

impl RequestRegistry {
    /// The in-flight entries, oldest first: each is an id with the slot
    /// parked under it.
    pub closed spec fn entries(&self) -> Seq<(u32, async_oneshot::Sender<ResponseOutcome>)> {
        self.pending@.map_values(|p: PendingSlot| (p.id, p.sender))
    }

    /// The in-flight ids, oldest first.
    pub open spec fn pending_ids(&self) -> Seq<u32> {
        self.entries().map_values(|e: (u32, async_oneshot::Sender<ResponseOutcome>)| e.0)
    }

    pub closed spec fn next_id_spec(&self) -> u32 {
        self.next_id
    }

    /// Id uniqueness: no id is in flight twice.
    pub open spec fn wf(&self) -> bool {
        self.pending_ids().no_duplicates()
    }

    pub open spec fn contains_id(&self, id: u32) -> bool {
        self.pending_ids().contains(id)
    }

    pub fn new() -> (r: Self)
        ensures
            r.wf(),
            r.entries() =~= Seq::<(u32, async_oneshot::Sender<ResponseOutcome>)>::empty(),
            r.next_id_spec() == 0,
    {
        RequestRegistry { next_id: 0, pending: Vec::new() }
    }

    /// How many requests are in flight.
    pub fn depth(&self) -> (n: usize)
        ensures
            n == self.entries().len(),
    {
        self.pending.len()
    }

    fn find_index(&self, id: u32) -> (r: Option<usize>)
        ensures
            match r {
                Some(k) => k < self.entries().len() && self.entries()[k as int].0 == id,
                None => !self.contains_id(id),
            },
    {
        let mut i: usize = 0;
        while i < self.pending.len()
            invariant
                i <= self.pending@.len(),
                forall|j: int| 0 <= j < i ==> #[trigger] self.pending@[j].id != id,
            decreases self.pending@.len() - i,
        {
            if self.pending[i].id == id {
                return Some(i);
            }
            i += 1;
        }
        proof {
            assert forall|j: int| 0 <= j < self.pending_ids().len() implies #[trigger] self
                .pending_ids()[j] != id by {
                assert(self.pending_ids()[j] == self.pending@[j].id);
            }
        }
        None
    }

    /// Takes the slot parked under `id` out, if one is there, so that the
    /// caller can complete it; everything else stays as it was. A second
    /// take of the same id finds nothing.
    pub fn take(&mut self, id: u32) -> (r: Option<async_oneshot::Sender<ResponseOutcome>>)
        requires
            old(self).wf(),
        ensures
            final(self).wf(),
            r is Some <==> old(self).contains_id(id),
            r is None ==> *final(self) == *old(self),
            r matches Some(s) ==> exists|k: int|
                0 <= k < old(self).entries().len() && old(self).entries()[k] == (id, s)
                    && final(self).entries() == old(self).entries().remove(k),
            !final(self).contains_id(id),
            forall|j: u32| j != id ==> (final(self).contains_id(j) <==> old(self).contains_id(j)),
            final(self).next_id_spec() == old(self).next_id_spec(),
            final(self).entries().len() >= old(self).entries().len() - 1,
    {
        match self.find_index(id) {
            Some(k) => {
                proof {
                    assert(self.pending_ids()[k as int] == self.pending@[k as int].id);
                }
                let slot = self.pending.remove(k);
                proof {
                    let prev = *old(self);
                    let ki = k as int;
                    assert(prev.entries()[ki] == (id, slot.sender));
                    assert(self.entries() =~= prev.entries().remove(ki));
                    prev.entries().remove_ensures(ki);
                    assert forall|j: int| 0 <= j < self.entries().len() implies #[trigger] self
                        .entries()[j].0 != id by {
                        let j0: int = if j < ki {
                            j
                        } else {
                            j + 1
                        };
                        assert(self.entries()[j] == prev.entries()[j0]);
                        assert(prev.pending_ids()[j0] == prev.entries()[j0].0);
                        assert(prev.pending_ids()[ki] == id);
                    }
                    assert forall|a: int, b: int|
                        0 <= a < self.pending_ids().len() && 0 <= b < self.pending_ids().len() && a
                            != b implies self.pending_ids()[a] != self.pending_ids()[b] by {
                        let a0: int = if a < ki {
                            a
                        } else {
                            a + 1
                        };
                        let b0: int = if b < ki {
                            b
                        } else {
                            b + 1
                        };
                        assert(self.pending_ids()[a] == self.entries()[a].0);
                        assert(self.pending_ids()[b] == self.entries()[b].0);
                        assert(self.entries()[a] == prev.entries()[a0]);
                        assert(self.entries()[b] == prev.entries()[b0]);
                        assert(prev.pending_ids()[a0] == prev.entries()[a0].0);
                        assert(prev.pending_ids()[b0] == prev.entries()[b0].0);
                    }
                    assert(!self.contains_id(id));
                    assert forall|j: u32| j != id implies (self.contains_id(j) <==> old(self)
                        .contains_id(j)) by {
                        if old(self).contains_id(j) {
                            let w = choose|w: int|
                                0 <= w < prev.pending_ids().len() && prev.pending_ids()[w] == j;
                            assert(prev.entries()[w].0 == j);
                            let w1: int = if w < ki {
                                w
                            } else {
                                w - 1
                            };
                            assert(self.entries()[w1] == prev.entries()[w]);
                            assert(self.pending_ids()[w1] == j);
                        }
                        if self.contains_id(j) {
                            let w = choose|w: int|
                                0 <= w < self.pending_ids().len() && self.pending_ids()[w] == j;
                            let w0: int = if w < ki {
                                w
                            } else {
                                w + 1
                            };
                            assert(self.entries()[w] == prev.entries()[w0]);
                            assert(prev.pending_ids()[w0] == j);
                        }
                    }
                }
                Some(slot.sender)
            },
            None => None,
        }
    }

    /// Allocates the next id, advances the counter with wrap-around, and
    /// parks `sender` under the new id. Returns the id, the number of
    /// requests that were in flight before this one, and the slot that a
    /// wrapped-around counter displaced, if any was still parked under
    /// the same id.
    pub fn allocate(&mut self, sender: async_oneshot::Sender<ResponseOutcome>) -> (r: (
        u32,
        usize,
        Option<async_oneshot::Sender<ResponseOutcome>>,
    ))
        requires
            old(self).wf(),
        ensures
            final(self).wf(),
            r.0 == old(self).next_id_spec(),
            r.1 == old(self).entries().len(),
            final(self).next_id_spec() == wrap_inc(old(self).next_id_spec()),
            final(self).contains_id(r.0),
            forall|k: u32| k != r.0 ==> (final(self).contains_id(k) <==> old(self).contains_id(k)),
            r.2 is Some <==> old(self).contains_id(r.0),
            final(self).entries().len() >= 1,
            final(self).entries().last() == (r.0, sender),
            r.2 is None ==> final(self).entries() == old(self).entries().push((r.0, sender)),
    {
        let id = self.next_id;
        let depth = self.pending.len();
        self.next_id = self.next_id.wrapping_add(1);
        assert(self.next_id == wrap_inc(old(self).next_id_spec()));
        let displaced = self.take(id);
        let ghost mid = *self;
        self.pending.push(PendingSlot { id, sender });
        proof {
            assert(self.entries() =~= mid.entries().push((id, sender)));
            let post = self.pending_ids();
            let midlen = mid.entries().len() as int;
            assert forall|a: int, b: int|
                0 <= a < post.len() && 0 <= b < post.len() && a != b implies post[a] != post[b] by {
                assert(post[a] == self.entries()[a].0);
                assert(post[b] == self.entries()[b].0);
                if a < midlen {
                    assert(self.entries()[a] == mid.entries()[a]);
                    assert(mid.pending_ids()[a] == mid.entries()[a].0);
                }
                if b < midlen {
                    assert(self.entries()[b] == mid.entries()[b]);
                    assert(mid.pending_ids()[b] == mid.entries()[b].0);
                }
            }
            assert(self.pending_ids()[post.len() - 1] == id);
            assert forall|k: u32| k != id implies (self.contains_id(k) <==> old(self).contains_id(
                k,
            )) by {
                if mid.contains_id(k) {
                    let w = choose|w: int|
                        0 <= w < mid.pending_ids().len() && mid.pending_ids()[w] == k;
                    assert(self.entries()[w] == mid.entries()[w]);
                    assert(self.pending_ids()[w] == k);
                }
                if self.contains_id(k) {
                    let w = choose|w: int|
                        0 <= w < self.pending_ids().len() && self.pending_ids()[w] == k;
                    assert(w < midlen);
                    assert(self.entries()[w] == mid.entries()[w]);
                    assert(mid.pending_ids()[w] == k);
                }
            }
        }
        (id, depth, displaced)
    }

    /// Drops the slot under `id`, as the timeout path does when the
    /// deadline fires before the response arrived.
    pub fn forget(&mut self, id: u32) -> (removed: bool)
        requires
            old(self).wf(),
        ensures
            final(self).wf(),
            removed <==> old(self).contains_id(id),
            !removed ==> *final(self) == *old(self),
            removed ==> exists|k: int|
                0 <= k < old(self).entries().len() && old(self).entries()[k].0 == id
                    && final(self).entries() == old(self).entries().remove(k),
            !final(self).contains_id(id),
            forall|j: u32| j != id ==> (final(self).contains_id(j) <==> old(self).contains_id(j)),
            final(self).next_id_spec() == old(self).next_id_spec(),
    {
        match self.take(id) {
            Some(_sender) => true,
            None => false,
        }
    }

    /// Empties the registry, handing every parked slot back, oldest
    /// first, so the caller can fail them all.
    pub fn drain(&mut self) -> (senders: Vec<async_oneshot::Sender<ResponseOutcome>>)
        ensures
            final(self).wf(),
            final(self).entries().len() == 0,
            senders@ == old(self).entries().map_values(
                |e: (u32, async_oneshot::Sender<ResponseOutcome>)| e.1,
            ),
            final(self).next_id_spec() == old(self).next_id_spec(),
    {
        let mut senders: Vec<async_oneshot::Sender<ResponseOutcome>> = Vec::new();
        while self.pending.len() > 0
            invariant
                senders@.len() + self.pending@.len() == old(self).pending@.len(),
                forall|j: int| 0 <= j < senders@.len() ==> #[trigger] senders@[j] == old(self)
                    .pending@[j].sender,
                forall|j: int| 0 <= j < self.pending@.len() ==> #[trigger] self.pending@[j] == old(
                    self,
                ).pending@[senders@.len() + j],
                self.next_id == old(self).next_id,
            decreases self.pending@.len(),
        {
            let ghost pre = self.pending@;
            let ghost done = senders@.len() as int;
            let slot = self.pending.remove(0);
            proof {
                pre.remove_ensures(0);
                assert(slot == pre[0]);
                assert(pre[0] == old(self).pending@[done]);
            }
            senders.push(slot.sender);
        }
        proof {
            let all = old(self).entries().map_values(
                |e: (u32, async_oneshot::Sender<ResponseOutcome>)| e.1,
            );
            assert forall|j: int| 0 <= j < all.len() implies all[j] == old(self).pending@[j].sender
                by {
                let p = old(self).pending@[j];
                assert(old(self).entries()[j] == (p.id, p.sender));
            }
            assert(senders@ =~= all);
        }
        senders
    }
}

} // verus!
