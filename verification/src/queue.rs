//! The bounded relay queue: a FIFO of decoded packets buffered between the
//! transport listener and the tick-driven dispatch loop. When full, an
//! incoming packet is dropped (drop-newest policy), an accepted tradeoff.

use vstd::prelude::*;

use crate::codec::Packet;

verus! {

/// A FIFO of packets with a fixed capacity. Pop order equals push order,
/// and the length never exceeds the capacity.
pub struct RelayQueue {
    items: Vec<Packet>,
    capacity: usize,
}

/// One push against a bounded queue: appended when there is room,
/// dropped otherwise.
pub open spec fn push_model(s: Seq<Packet>, cap: nat, p: Packet) -> Seq<Packet> {
    if s.len() < cap {
        s.push(p)
    } else {
        s
    }
}

/// A whole sequence of pushes against a bounded queue, first element first.
pub open spec fn apply_pushes(s: Seq<Packet>, cap: nat, ps: Seq<Packet>) -> Seq<Packet>
    decreases ps.len(),
{
    if ps.len() == 0 {
        s
    } else {
        apply_pushes(push_model(s, cap, ps[0]), cap, ps.drop_first())
    }
}

impl View for RelayQueue {
    type V = Seq<Packet>;

    /// The queued packets, oldest first.
    closed spec fn view(&self) -> Seq<Packet> {
        self.items@
    }
}

impl RelayQueue {
    /// The fixed capacity the queue was created with.
    pub closed spec fn cap(&self) -> nat {
        self.capacity as nat
    }

    /// The queue never holds more packets than its capacity.
    pub open spec fn wf(&self) -> bool {
        self@.len() <= self.cap()
    }

    /// An empty queue of the given capacity.
    pub fn new(capacity: usize) -> (q: RelayQueue)
        ensures
            q.wf(),
            q@.len() == 0,
            q.cap() == capacity,
    {
        RelayQueue { items: Vec::new(), capacity }
    }

    /// How many packets are queued.
    pub fn len(&self) -> (n: usize)
        ensures
            n == self@.len(),
    {
        self.items.len()
    }

    /// The capacity the queue was created with.
    pub fn capacity(&self) -> (n: usize)
        ensures
            n == self.cap(),
    {
        self.capacity
    }

    /// Append a packet when there is room; drop it (returning `false`)
    /// when the queue is full.
    pub fn push(&mut self, p: Packet) -> (accepted: bool)
        requires
            old(self).wf(),
        ensures
            final(self).wf(),
            final(self).cap() == old(self).cap(),
            final(self)@ == push_model(old(self)@, old(self).cap(), p),
            accepted <==> old(self)@.len() < old(self).cap(),
            accepted ==> final(self)@ == old(self)@.push(p),
            !accepted ==> final(self)@ == old(self)@,
    {
        if self.items.len() < self.capacity {
            self.items.push(p);
            true
        } else {
            false
        }
    }

    /// Atomically remove and return all queued packets, oldest first.
    pub fn drain_all(&mut self) -> (drained: Vec<Packet>)
        requires
            old(self).wf(),
        ensures
            final(self).wf(),
            final(self).cap() == old(self).cap(),
            drained@ == old(self)@,
            final(self)@.len() == 0,
    {
        let mut taken: Vec<Packet> = Vec::new();
        core::mem::swap(&mut self.items, &mut taken);
        taken
    }
}

/// However many packets are pushed, a queue that starts within its capacity
/// stays within it at every observation point.
pub proof fn lemma_pushes_bounded(s: Seq<Packet>, cap: nat, ps: Seq<Packet>)
    requires
        s.len() <= cap,
    ensures
        apply_pushes(s, cap, ps).len() <= cap,
    decreases ps.len(),
{
    if ps.len() > 0 {
        lemma_pushes_bounded(push_model(s, cap, ps[0]), cap, ps.drop_first());
    }
}

/// Pushing a sequence of packets into a queue with room keeps the queued
/// packets in push order: the queue ends as its old contents followed by
/// the longest prefix of the pushed packets that fits.
pub proof fn lemma_pushes_prefix(s: Seq<Packet>, cap: nat, ps: Seq<Packet>)
    requires
        s.len() <= cap,
    ensures
        apply_pushes(s, cap, ps) =~= s + ps.take(
            vstd::math::min(ps.len() as int, cap - s.len()),
        ),
    decreases ps.len(),
{
    if ps.len() == 0 {
        assert(apply_pushes(s, cap, ps) =~= s + ps.take(0));
    } else if s.len() < cap {
        lemma_pushes_prefix(s.push(ps[0]), cap, ps.drop_first());
        let k = vstd::math::min(ps.drop_first().len() as int, cap - s.len() - 1);
        assert(apply_pushes(s, cap, ps) =~= s.push(ps[0]) + ps.drop_first().take(k));
        assert(s.push(ps[0]) + ps.drop_first().take(k) =~= s + ps.take(
            vstd::math::min(ps.len() as int, cap - s.len()),
        ));
    } else {
        lemma_pushes_prefix(s, cap, ps.drop_first());
    }
}

/// FIFO law: from an empty queue, any sequence of pushes followed by one
/// drain yields exactly the accepted packets in push order — the first
/// packets up to the capacity, none reordered, none duplicated.
pub proof fn lemma_fifo(cap: nat, ps: Seq<Packet>)
    ensures
        apply_pushes(Seq::<Packet>::empty(), cap, ps) =~= ps.take(
            vstd::math::min(ps.len() as int, cap as int),
        ),
{
    lemma_pushes_prefix(Seq::<Packet>::empty(), cap, ps);
    assert(Seq::<Packet>::empty() + ps.take(vstd::math::min(ps.len() as int, cap as int))
        =~= ps.take(vstd::math::min(ps.len() as int, cap as int)));
}

} // verus!
