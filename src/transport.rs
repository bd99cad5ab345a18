//! The transport: a bounded, order-preserving hand-off queue between one producer and the
//! segmentation engine. `None` is the end-of-stream sentinel.
use crate::segment::Segment;
use std::collections::VecDeque;
use vstd::prelude::*;

verus! {

/// The queue after offering `item`: appended when there is room, unchanged when full.
pub open spec fn after_push(q: Seq<Option<Segment>>, cap: nat, item: Option<Segment>) -> Seq<
    Option<Segment>,
> {
    if q.len() < cap {
        q.push(item)
    } else {
        q
    }
}

/// The queue after taking its oldest item, if any.
pub open spec fn after_pop(q: Seq<Option<Segment>>) -> Seq<Option<Segment>> {
    if q.len() > 0 {
        q.drop_first()
    } else {
        q
    }
}

pub struct Transport {
    items: VecDeque<Option<Segment>>,
    capacity: usize,
}

impl View for Transport {
    type V = Seq<Option<Segment>>;

    closed spec fn view(&self) -> Seq<Option<Segment>> {
        self.items@
    }
}

impl Transport {
    pub closed spec fn capacity(&self) -> nat {
        self.capacity as nat
    }

    pub open spec fn wf(&self) -> bool {
        &&& self.capacity() > 0
        &&& self@.len() <= self.capacity()
    }

    pub fn new(capacity: usize) -> (t: Transport)
        requires
            capacity > 0,
        ensures
            t.wf(),
            t@ == Seq::<Option<Segment>>::empty(),
            t.capacity() == capacity,
    {
        Transport { items: VecDeque::new(), capacity }
    }

    pub fn len(&self) -> (n: usize)
        ensures
            n == self@.len(),
    {
        self.items.len()
    }

    pub fn capacity_of(&self) -> (n: usize)
        ensures
            n == self.capacity(),
    {
        self.capacity
    }

    pub fn is_full(&self) -> (b: bool)
        requires
            self.wf(),
        ensures
            b == (self@.len() == self.capacity()),
    {
        self.items.len() >= self.capacity
    }

    pub fn is_empty(&self) -> (b: bool)
        ensures
            b == (self@.len() == 0),
    {
        self.items.len() == 0
    }

    /// Enqueues `item` at the back, or hands it back untouched when the queue is full.
    pub fn try_push(&mut self, item: Option<Segment>) -> (r: Result<(), Option<Segment>>)
        requires
            old(self).wf(),
        ensures
            final(self).wf(),
            final(self).capacity() == old(self).capacity(),
            final(self)@ == after_push(old(self)@, old(self).capacity(), item),
            r is Ok <==> old(self)@.len() < old(self).capacity(),
            r matches Err(back) ==> back == item,
    {
        if self.items.len() >= self.capacity {
            Err(item)
        } else {
            self.items.push_back(item);
            Ok(())
        }
    }

    /// Dequeues the oldest item; `None` when the queue is empty.
    pub fn pop(&mut self) -> (r: Option<Option<Segment>>)
        requires
            old(self).wf(),
        ensures
            final(self).wf(),
            final(self).capacity() == old(self).capacity(),
            final(self)@ == after_pop(old(self)@),
            r == if old(self)@.len() > 0 {
                Some(old(self)@[0])
            } else {
                None::<Option<Segment>>
            },
    {
        let r = self.items.pop_front();
        proof {
            if old(self)@.len() > 0 {
                assert(self@ =~= old(self)@.drop_first());
            }
        }
        r
    }
}

/// One operation on the transport.
pub enum QueueOp {
    Push(Option<Segment>),
    Pop,
}

/// What a run of operations leaves: the queue, the items it accepted, the items it handed out.
pub struct Replay {
    pub queue: Seq<Option<Segment>>,
    pub accepted: Seq<Option<Segment>>,
    pub delivered: Seq<Option<Segment>>,
}

pub open spec fn replay(cap: nat, ops: Seq<QueueOp>) -> Replay
    decreases ops.len(),
{
    if ops.len() == 0 {
        Replay { queue: Seq::empty(), accepted: Seq::empty(), delivered: Seq::empty() }
    } else {
        let r = replay(cap, ops.drop_last());
        match ops.last() {
            QueueOp::Push(x) => {
                if r.queue.len() < cap {
                    Replay {
                        queue: after_push(r.queue, cap, x),
                        accepted: r.accepted.push(x),
                        delivered: r.delivered,
                    }
                } else {
                    r
                }
            },
            QueueOp::Pop => {
                if r.queue.len() > 0 {
                    Replay {
                        queue: after_pop(r.queue),
                        accepted: r.accepted,
                        delivered: r.delivered.push(r.queue[0]),
                    }
                } else {
                    r
                }
            },
        }
    }
}

/// Whatever the interleaving of pushes and pops, the consumer receives the accepted items in
/// exactly the order they were pushed: what was handed out, followed by what is still queued,
/// is the sequence of accepted items.
pub proof fn lemma_transport_preserves_order(cap: nat, ops: Seq<QueueOp>)
    ensures
        replay(cap, ops).delivered + replay(cap, ops).queue == replay(cap, ops).accepted,
    decreases ops.len(),
{
    if ops.len() > 0 {
        lemma_transport_preserves_order(cap, ops.drop_last());
        let r = replay(cap, ops.drop_last());
        match ops.last() {
            QueueOp::Push(x) => {
                if r.queue.len() < cap {
                    assert(r.delivered + r.queue.push(x) =~= r.accepted.push(x));
                }
            },
            QueueOp::Pop => {
                if r.queue.len() > 0 {
                    assert(r.delivered.push(r.queue[0]) + r.queue.drop_first() =~= r.accepted);
                }
            },
        }
    }
}

} // verus!
