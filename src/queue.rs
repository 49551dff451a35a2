//! The bounded first-in first-out queue between the producers of a session
//! (heartbeats, responses) and its single writer.
use vstd::prelude::*;

verus! {

/// Capacity of the outbound queue of a session.
pub const QUEUE_CAPACITY: usize = 32;

/// One outbound frame: a heartbeat ping or a serialized response envelope.
#[derive(Debug, PartialEq, Eq)]
pub enum OutboundMessage {
    Ping,
    Text(String),
}

/// Why an enqueue was refused.
#[derive(Clone, Copy, Debug, PartialEq, Eq)]
pub enum EnqueueError {
    Full,
    Closed,
}

pub struct OutboundQueue {
    items: Vec<OutboundMessage>,
    capacity: usize,
    closed: bool,
}

impl View for OutboundQueue {
    type V = Seq<OutboundMessage>;

    open spec fn view(&self) -> Seq<OutboundMessage> {
        self.spec_items()
    }
}

impl OutboundQueue {
    pub closed spec fn spec_items(&self) -> Seq<OutboundMessage> {
        self.items@
    }

    pub closed spec fn spec_capacity(&self) -> nat {
        self.capacity as nat
    }

    pub closed spec fn spec_closed(&self) -> bool {
        self.closed
    }

    pub open spec fn wf(&self) -> bool {
        self@.len() <= self.spec_capacity() && self.spec_capacity() > 0
    }

    /// An empty open queue of the given capacity.
    pub fn with_capacity(capacity: usize) -> (r: OutboundQueue)
        requires
            capacity > 0,
        ensures
            r.wf(),
            r@ == Seq::<OutboundMessage>::empty(),
            r.spec_capacity() == capacity,
            !r.spec_closed(),
    {
        OutboundQueue { items: Vec::new(), capacity, closed: false }
    }

    /// An empty open queue of the standard capacity.
    pub fn new() -> (r: OutboundQueue)
        ensures
            r.wf(),
            r@ == Seq::<OutboundMessage>::empty(),
            r.spec_capacity() == QUEUE_CAPACITY,
            !r.spec_closed(),
    {
        OutboundQueue::with_capacity(QUEUE_CAPACITY)
    }

    pub fn len(&self) -> (r: usize)
        ensures
            r == self@.len(),
    {
        self.items.len()
    }

    pub fn is_closed(&self) -> (r: bool)
        ensures
            r == self.spec_closed(),
    {
        self.closed
    }

    /// Appends `m` at the back; refused when the queue is closed or full.
    pub fn push(&mut self, m: OutboundMessage) -> (r: Result<(), EnqueueError>)
        requires
            old(self).wf(),
        ensures
            final(self).wf(),
            final(self).spec_capacity() == old(self).spec_capacity(),
            final(self).spec_closed() == old(self).spec_closed(),
            old(self).spec_closed() ==> r == Err::<(), EnqueueError>(EnqueueError::Closed),
            !old(self).spec_closed() && old(self)@.len() == old(self).spec_capacity() ==> r
                == Err::<(), EnqueueError>(EnqueueError::Full),
            r is Ok <==> (!old(self).spec_closed() && old(self)@.len() < old(self).spec_capacity()),
            r is Ok ==> final(self)@ == old(self)@.push(m),
            r is Err ==> final(self)@ == old(self)@,
    {
        if self.closed {
            return Err(EnqueueError::Closed);
        }
        if self.items.len() >= self.capacity {
            return Err(EnqueueError::Full);
        }
        self.items.push(m);
        Ok(())
    }

    /// Takes the message at the front, if any.
    pub fn pop(&mut self) -> (r: Option<OutboundMessage>)
        requires
            old(self).wf(),
        ensures
            final(self).wf(),
            final(self).spec_capacity() == old(self).spec_capacity(),
            final(self).spec_closed() == old(self).spec_closed(),
            old(self)@.len() == 0 ==> r is None && final(self)@ == old(self)@,
            old(self)@.len() > 0 ==> r == Some(old(self)@[0]) && final(self)@ == old(self)@.drop_first(),
    {
        if self.items.len() == 0 {
            None
        } else {
            let m = self.items.remove(0);
            assert(self.items@ == old(self)@.drop_first());
            Some(m)
        }
    }

    /// Refuses every later enqueue; what is queued can still be taken.
    pub fn close(&mut self)
        requires
            old(self).wf(),
        ensures
            final(self).wf(),
            final(self)@ == old(self)@,
            final(self).spec_capacity() == old(self).spec_capacity(),
            final(self).spec_closed(),
    {
        self.closed = true;
    }
}

/// The contents after each of `ms` is accepted in turn.
pub open spec fn after_pushes(q: Seq<OutboundMessage>, ms: Seq<OutboundMessage>) -> Seq<OutboundMessage>
    decreases ms.len(),
{
    if ms.len() == 0 {
        q
    } else {
        after_pushes(q.push(ms[0]), ms.drop_first())
    }
}

/// What `k` pops take from `q`, front first.
pub open spec fn popped(q: Seq<OutboundMessage>, k: nat) -> Seq<OutboundMessage>
    decreases k,
{
    if k == 0 || q.len() == 0 {
        Seq::empty()
    } else {
        seq![q[0]] + popped(q.drop_first(), (k - 1) as nat)
    }
}

proof fn lemma_after_pushes_is_concat(q: Seq<OutboundMessage>, ms: Seq<OutboundMessage>)
    ensures
        after_pushes(q, ms) == q + ms,
    decreases ms.len(),
{
    if ms.len() > 0 {
        lemma_after_pushes_is_concat(q.push(ms[0]), ms.drop_first());
        assert(q.push(ms[0]) + ms.drop_first() == q + ms);
    } else {
        assert(q + ms == q);
    }
}

proof fn lemma_popped_all(q: Seq<OutboundMessage>)
    ensures
        popped(q, q.len()) == q,
    decreases q.len(),
{
    if q.len() > 0 {
        lemma_popped_all(q.drop_first());
        assert(seq![q[0]] + q.drop_first() == q);
    }
}

/// Messages leave the queue in the order in which they were enqueued, whoever
/// enqueued them: after `ms` is accepted into `q`, draining it yields what was
/// queued before, then `ms` in order.
pub proof fn lemma_fifo_order(q: Seq<OutboundMessage>, ms: Seq<OutboundMessage>)
    ensures
        popped(after_pushes(q, ms), q.len() + ms.len()) == q + ms,
{
    lemma_after_pushes_is_concat(q, ms);
    lemma_popped_all(q + ms);
}

} // verus!
