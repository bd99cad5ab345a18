//! The pre-roll buffer: the most recent non-speech samples, at most a fixed capacity of them.
use ringbuffer::AllocRingBuffer;
use ringbuffer::RingBuffer;
use vstd::prelude::*;

verus! {

#[verifier::external_type_specification]
#[verifier::external_body]
#[verifier::reject_recursive_types(T)]
pub struct ExAllocRingBuffer<T>(AllocRingBuffer<T>);

/// The samples a ring buffer holds, oldest first.
pub uninterp spec fn ring_samples(r: AllocRingBuffer<i16>) -> Seq<i16>;

/// The capacity a ring buffer was made with.
pub uninterp spec fn ring_capacity(r: AllocRingBuffer<i16>) -> nat;

/// The last `n` items of `s` (all of `s` when it is no longer than `n`).
pub open spec fn keep_last(s: Seq<i16>, n: nat) -> Seq<i16> {
    if s.len() <= n {
        s
    } else {
        s.subrange(s.len() - n, s.len() as int)
    }
}

/// Relies on ringbuffer::AllocRingBuffer::new: an empty buffer of the given capacity
/// (it panics on capacity zero).
#[verifier::external_body]
fn ring_new(capacity: usize) -> (r: AllocRingBuffer<i16>)
    requires
        capacity > 0,
    ensures
        ring_samples(r) == Seq::<i16>::empty(),
        ring_capacity(r) == capacity,
{
    AllocRingBuffer::new(capacity)
}

/// Relies on ringbuffer's Extend impl for AllocRingBuffer: each item is enqueued in turn,
/// and an enqueue on a full buffer first drops the oldest item.
#[verifier::external_body]
fn ring_extend(r: &mut AllocRingBuffer<i16>, items: &Vec<i16>)
    ensures
        ring_capacity(*final(r)) == ring_capacity(*old(r)),
        ring_samples(*final(r)) == keep_last(
            ring_samples(*old(r)) + items@,
            ring_capacity(*old(r)),
        ),
{
    r.extend(items.iter().cloned())
}

/// Relies on ringbuffer::RingBuffer::len: the number of items held.
#[verifier::external_body]
fn ring_len(r: &AllocRingBuffer<i16>) -> (n: usize)
    ensures
        n == ring_samples(*r).len(),
{
    r.len()
}

/// Relies on ringbuffer::RingBuffer::to_vec: the items held, oldest first.
#[verifier::external_body]
fn ring_to_vec(r: &AllocRingBuffer<i16>) -> (v: Vec<i16>)
    ensures
        v@ == ring_samples(*r),
{
    r.to_vec()
}

/// Relies on ringbuffer::RingBuffer::clear: removes every item, keeps the capacity.
#[verifier::external_body]
fn ring_clear(r: &mut AllocRingBuffer<i16>)
    ensures
        ring_samples(*final(r)) == Seq::<i16>::empty(),
        ring_capacity(*final(r)) == ring_capacity(*old(r)),
{
    r.clear()
}

/// Recent non-speech samples, bounded by a capacity fixed at construction.
pub struct PreRoll {
    ring: AllocRingBuffer<i16>,
}

impl View for PreRoll {
    type V = Seq<i16>;

    closed spec fn view(&self) -> Seq<i16> {
        ring_samples(self.ring)
    }
}

impl PreRoll {
    pub closed spec fn capacity(&self) -> nat {
        ring_capacity(self.ring)
    }

    /// The buffer never holds more samples than its capacity.
    pub open spec fn wf(&self) -> bool {
        &&& self.capacity() > 0
        &&& self@.len() <= self.capacity()
    }

    pub fn new(capacity: usize) -> (p: PreRoll)
        requires
            capacity > 0,
        ensures
            p.wf(),
            p@ == Seq::<i16>::empty(),
            p.capacity() == capacity,
    {
        PreRoll { ring: ring_new(capacity) }
    }

    pub fn len(&self) -> (n: usize)
        ensures
            n == self@.len(),
    {
        ring_len(&self.ring)
    }

    /// Appends a chunk, dropping the oldest samples beyond the capacity.
    pub fn push_chunk(&mut self, samples: &Vec<i16>)
        requires
            old(self).wf(),
        ensures
            final(self).wf(),
            final(self).capacity() == old(self).capacity(),
            final(self)@ == keep_last(old(self)@ + samples@, old(self).capacity()),
    {
        ring_extend(&mut self.ring, samples);
    }

    /// Hands out every sample held, oldest first, and leaves the buffer empty.
    pub fn take_all(&mut self) -> (v: Vec<i16>)
        requires
            old(self).wf(),
        ensures
            final(self).wf(),
            final(self).capacity() == old(self).capacity(),
            v@ == old(self)@,
            final(self)@ == Seq::<i16>::empty(),
    {
        let v = ring_to_vec(&self.ring);
        ring_clear(&mut self.ring);
        v
    }

    pub fn clear(&mut self)
        requires
            old(self).wf(),
        ensures
            final(self).wf(),
            final(self).capacity() == old(self).capacity(),
            final(self)@ == Seq::<i16>::empty(),
    {
        ring_clear(&mut self.ring);
    }
}

} // verus!
