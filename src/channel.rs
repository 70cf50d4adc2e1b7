use vstd::prelude::*;
use crate::event::{Event, Source, source_spec};

verus! {

/// A bounded multi-producer queue whose every event reaches every subscriber.
///
/// `pending` holds the events that at least one subscriber has not read yet;
/// `cursors[s]` is how many of them subscriber `s` has read. A producer that
/// finds the queue full gets `false` back and must wait: nothing is dropped.
pub struct EventQueue {
    pending: Vec<Event>,
    cursors: Vec<usize>,
    capacity: usize,
    log: Ghost<Seq<Event>>,
    delivered: Ghost<Seq<Seq<Event>>>,
}

impl EventQueue {
    /// Every event ever accepted, in the order it was accepted.
    pub closed spec fn sent(&self) -> Seq<Event> {
        self.log@
    }

    /// Every event subscriber `s` has received, in the order received.
    pub closed spec fn received(&self, s: int) -> Seq<Event> {
        self.delivered@[s]
    }

    /// How many subscribers read the queue.
    pub closed spec fn subscribers(&self) -> nat {
        self.cursors@.len()
    }

    /// How many unread events the queue can hold.
    pub closed spec fn depth(&self) -> nat {
        self.capacity as nat
    }

    /// How many events some subscriber has still to read.
    pub closed spec fn backlog(&self) -> nat {
        self.pending@.len()
    }

    /// How many events subscriber `s` has still to read.
    pub open spec fn unread(&self, s: int) -> int {
        self.sent().len() - self.received(s).len()
    }

    pub closed spec fn wf(&self) -> bool {
        let base = self.log@.len() - self.pending@.len();
        &&& 0 < self.capacity
        &&& self.pending@.len() <= self.capacity
        &&& self.pending@.len() <= self.log@.len()
        &&& self.pending@ == self.log@.subrange(base, self.log@.len() as int)
        &&& 0 < self.cursors@.len()
        &&& self.delivered@.len() == self.cursors@.len()
        &&& forall|s: int| 0 <= s < self.cursors@.len() ==> #[trigger] self.cursors@[s] <= self.pending@.len()
        &&& forall|s: int|
            0 <= s < self.cursors@.len() ==> #[trigger] self.delivered@[s] == self.log@.take(base + self.cursors@[s])
        &&& exists|s: int| 0 <= s < self.cursors@.len() && self.cursors@[s] == 0
    }

    /// An empty queue with room for `depth` unread events, read by
    /// `subscribers` subscribers.
    pub fn new(depth: usize, subscribers: usize) -> (r: Self)
        requires
            depth > 0,
            subscribers > 0,
        ensures
            r.wf(),
            r.depth() == depth,
            r.subscribers() == subscribers,
            r.sent() == Seq::<Event>::empty(),
            r.backlog() == 0,
            forall|s: int| 0 <= s < subscribers ==> #[trigger] r.received(s) == Seq::<Event>::empty(),
    {
        let mut cursors: Vec<usize> = Vec::new();
        let mut i: usize = 0;
        while i < subscribers
            invariant
                i <= subscribers,
                cursors@ == Seq::new(i as nat, |k: int| 0usize),
            decreases subscribers - i,
        {
            cursors.push(0);
            assert(cursors@ =~= Seq::new(i as nat + 1, |k: int| 0usize));
            i = i + 1;
        }
        let q = EventQueue {
            pending: Vec::new(),
            cursors,
            capacity: depth,
            log: Ghost(Seq::empty()),
            delivered: Ghost(Seq::new(subscribers as nat, |k: int| Seq::<Event>::empty())),
        };
        assert(q.log@.take(0) =~= Seq::<Event>::empty());
        assert(q.pending@ =~= q.log@.subrange(0, 0));
        assert(q.cursors@[0] == 0);
        q
    }

    pub fn depth_of(&self) -> (r: usize)
        ensures
            r == self.depth(),
    {
        self.capacity
    }

    pub fn subscriber_count(&self) -> (r: usize)
        ensures
            r == self.subscribers(),
    {
        self.cursors.len()
    }

    pub fn backlog_len(&self) -> (r: usize)
        ensures
            r == self.backlog(),
    {
        self.pending.len()
    }

    /// Offers an event. It is accepted exactly when fewer than `depth` events
    /// are waiting; otherwise the queue is left as it was and the producer
    /// must try again once a subscriber has read.
    pub fn send(&mut self, event: Event) -> (accepted: bool)
        requires
            old(self).wf(),
        ensures
            final(self).wf(),
            accepted == (old(self).backlog() < old(self).depth()),
            accepted ==> final(self).sent() == old(self).sent().push(event),
            accepted ==> final(self).backlog() == old(self).backlog() + 1,
            !accepted ==> final(self).sent() == old(self).sent(),
            !accepted ==> final(self).backlog() == old(self).backlog(),
            final(self).depth() == old(self).depth(),
            final(self).subscribers() == old(self).subscribers(),
            forall|s: int|
                0 <= s < old(self).subscribers() ==> #[trigger] final(self).received(s) == old(self).received(s),
    {
        if self.pending.len() < self.capacity {
            let ghost old_log = self.log@;
            let ghost base = self.log@.len() - self.pending@.len();
            self.pending.push(event);
            self.log = Ghost(self.log@.push(event));
            proof {
                let w = choose|w: int| 0 <= w < self.cursors@.len() && self.cursors@[w] == 0;
                assert(self.cursors@[w] == 0);
                assert(self.pending@.len() <= self.capacity);
                assert(self.pending@ =~= self.log@.subrange(base, self.log@.len() as int));
                assert forall|s: int| 0 <= s < self.cursors@.len() implies
                    #[trigger] self.delivered@[s] == self.log@.take(base + self.cursors@[s]) by {
                    assert(old(self).delivered@[s] == old_log.take(base + old(self).cursors@[s]));
                    assert(old(self).cursors@[s] <= old(self).pending@.len());
                    assert(self.log@.take(base + self.cursors@[s]) =~= old_log.take(base + self.cursors@[s]));
                }
            }
            true
        } else {
            false
        }
    }

    /// Reads the next event for subscriber `s`: the first accepted event it
    /// has not received yet, or `None` when it has received them all.
    pub fn receive(&mut self, s: usize) -> (r: Option<Event>)
        requires
            old(self).wf(),
            s < old(self).subscribers(),
        ensures
            final(self).wf(),
            final(self).sent() == old(self).sent(),
            final(self).depth() == old(self).depth(),
            final(self).subscribers() == old(self).subscribers(),
            old(self).unread(s as int) > 0 ==> {
                &&& r == Some(old(self).sent()[old(self).received(s as int).len() as int])
                &&& final(self).received(s as int) == old(self).received(s as int).push(r->0)
            },
            old(self).unread(s as int) <= 0 ==> {
                &&& r is None
                &&& final(self).received(s as int) == old(self).received(s as int)
            },
            forall|t: int|
                0 <= t < old(self).subscribers() && t != s ==> #[trigger] final(self).received(t) == old(self).received(t),
    {
        proof {
            self.lemma_unread(s as int);
        }
        let c = self.cursors[s];
        if c >= self.pending.len() {
            return None;
        }
        let ghost base = self.log@.len() - self.pending@.len();
        let ghost old_cursors = self.cursors@;
        let ghost old_delivered = self.delivered@;
        let e = self.pending[c];
        self.cursors.set(s, c + 1);
        self.delivered = Ghost(self.delivered@.update(s as int, self.delivered@[s as int].push(e)));
        proof {
            assert(self.log@.take(base + c + 1) =~= self.log@.take(base + c).push(e));
            assert forall|t: int| 0 <= t < self.cursors@.len() implies
                #[trigger] self.delivered@[t] == self.log@.take(base + self.cursors@[t]) by {
                if t != s {
                    assert(self.delivered@[t] == old_delivered[t]);
                }
            }
        }
        // Drop the oldest event once every subscriber has read it.
        if all_positive(&self.cursors) {
            let ghost before = self.cursors@;
            self.pending.remove(0);
            decrement_all(&mut self.cursors);
            proof {
                let nb = base + 1;
                assert(self.pending@ =~= self.log@.subrange(nb, self.log@.len() as int));
                assert forall|t: int| 0 <= t < self.cursors@.len() implies
                    #[trigger] self.delivered@[t] == self.log@.take(nb + self.cursors@[t])
                    && self.cursors@[t] <= self.pending@.len() by {
                    assert(self.delivered@[t] == self.log@.take(base + before[t]));
                    assert(before[t] <= self.pending@.len() + 1);
                }
                let w = choose|w: int| 0 <= w < old_cursors.len() && old_cursors[w] == 0;
                assert(before[w] > 0);
                assert(w != s ==> before[w] == old_cursors[w]);
                assert(w == s);
                assert(self.cursors@[w] == 0);
            }
        } else {
            proof {
                let w = choose|w: int| 0 <= w < self.cursors@.len() && !(self.cursors@[w] > 0);
                assert(self.cursors@[w] == 0);
            }
        }
        Some(e)
    }

    /// What a subscriber has read, measured against the log.
    proof fn lemma_unread(&self, s: int)
        requires
            self.wf(),
            0 <= s < self.subscribers(),
        ensures
            self.received(s).len() == self.sent().len() - self.backlog() + self.cursors@[s],
            self.unread(s) == self.backlog() - self.cursors@[s],
            self.received(s) == self.sent().take(self.received(s).len() as int),
    {
        assert(self.delivered@[s] == self.log@.take(self.log@.len() - self.pending@.len() + self.cursors@[s]));
    }

    /// Each subscriber has received exactly the accepted events, each once and
    /// in the order accepted, up to some point: nothing lost, doubled or
    /// reordered. The backlog is what the slowest subscriber has left to read,
    /// so once every subscriber has caught up there is room again.
    pub proof fn lemma_delivery(&self)
        requires
            self.wf(),
        ensures
            forall|s: int|
                0 <= s < self.subscribers() ==> {
                    &&& #[trigger] self.received(s).len() <= self.sent().len()
                    &&& self.received(s) == self.sent().take(self.received(s).len() as int)
                    &&& 0 <= self.unread(s) <= self.backlog()
                    &&& self.unread(s) == 0 ==> self.received(s) == self.sent()
                },
            exists|s: int| 0 <= s < self.subscribers() && #[trigger] self.unread(s) == self.backlog(),
            (forall|s: int| 0 <= s < self.subscribers() ==> #[trigger] self.unread(s) == 0) ==> self.backlog() == 0,
            self.backlog() <= self.depth(),
    {
        assert forall|s: int| 0 <= s < self.subscribers() implies {
            &&& #[trigger] self.received(s).len() <= self.sent().len()
            &&& self.received(s) == self.sent().take(self.received(s).len() as int)
            &&& 0 <= self.unread(s) <= self.backlog()
            &&& self.unread(s) == 0 ==> self.received(s) == self.sent()
        } by {
            self.lemma_unread(s);
            assert(self.sent().take(self.sent().len() as int) =~= self.sent());
        }
        let w = choose|w: int| 0 <= w < self.cursors@.len() && self.cursors@[w] == 0;
        self.lemma_unread(w);
        assert(self.unread(w) == self.backlog());
    }

    /// Seen from one producer kind alone, what a subscriber has received is
    /// the start of what that kind sent, in the same order.
    pub proof fn lemma_source_order(&self, s: int, src: Source)
        requires
            self.wf(),
            0 <= s < self.subscribers(),
        ensures
            ({
                let mine = self.received(s).filter(|e: Event| source_spec(e) == src);
                let all = self.sent().filter(|e: Event| source_spec(e) == src);
                mine.len() <= all.len() && mine == all.take(mine.len() as int)
            }),
    {
        self.lemma_unread(s);
        let n = self.received(s).len() as int;
        let p = |e: Event| source_spec(e) == src;
        let head = self.sent().take(n);
        let tail = self.sent().skip(n);
        assert(self.sent() =~= head + tail);
        Seq::filter_distributes_over_add(head, tail, p);
        let mine = head.filter(p);
        let all = self.sent().filter(p);
        assert(all == mine + tail.filter(p));
        assert(all.take(mine.len() as int) =~= mine);
    }
}

/// Whether every entry is positive.
fn all_positive(v: &Vec<usize>) -> (r: bool)
    ensures
        r == forall|t: int| 0 <= t < v@.len() ==> v@[t] > 0,
{
    let mut j: usize = 0;
    while j < v.len()
        invariant
            j <= v@.len(),
            forall|t: int| 0 <= t < j ==> v@[t] > 0,
        decreases v@.len() - j,
    {
        if v[j] == 0 {
            return false;
        }
        j = j + 1;
    }
    true
}

/// Lowers every entry by one.
fn decrement_all(v: &mut Vec<usize>)
    requires
        forall|t: int| 0 <= t < old(v)@.len() ==> old(v)@[t] > 0,
    ensures
        final(v)@.len() == old(v)@.len(),
        forall|t: int| 0 <= t < old(v)@.len() ==> #[trigger] final(v)@[t] == old(v)@[t] - 1,
{
    let ghost before = v@;
    let mut k: usize = 0;
    while k < v.len()
        invariant
            k <= v@.len(),
            v@.len() == before.len(),
            forall|t: int| 0 <= t < k ==> v@[t] == before[t] - 1,
            forall|t: int| k <= t < before.len() ==> v@[t] == before[t],
            forall|t: int| 0 <= t < before.len() ==> before[t] > 0,
        decreases v@.len() - k,
    {
        let x = v[k];
        assert(x == before[k as int]);
        v.set(k, x - 1);
        k = k + 1;
    }
}

} // verus!
