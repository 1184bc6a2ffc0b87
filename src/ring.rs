//! The sample ring: a fixed-capacity, single-producer / single-consumer FIFO
//! of samples, kept by `ringbuf`. Samples travel as the bit patterns of their
//! 32-bit float values, so silence is `0`.

use vstd::prelude::*;
use ringbuf::traits::{Consumer, Observer, Producer, Split};

verus! {

/// What the ring holds, oldest first.
pub uninterp spec fn ring_contents(r: SampleRing) -> Seq<u32>;

/// The number of samples the ring can hold.
pub uninterp spec fn ring_capacity(r: SampleRing) -> nat;

/// Every sample that has entered the ring through this producer, in order.
pub uninterp spec fn pushed_items(p: SampleProducer) -> Seq<u32>;

/// The number of samples the ring behind this producer can hold.
pub uninterp spec fn producer_capacity(p: SampleProducer) -> nat;

/// Every sample that this consumer has taken out of the ring (popped or
/// skipped), in order.
pub uninterp spec fn removed_items(c: SampleConsumer) -> Seq<u32>;

/// How many samples this consumer last saw waiting, less those it has taken
/// out since: the producer only adds, so at least this many are waiting.
pub uninterp spec fn known_waiting(c: SampleConsumer) -> nat;

/// The number of samples the ring behind this consumer can hold.
pub uninterp spec fn consumer_capacity(c: SampleConsumer) -> nat;

/// What remains of `known` waiting samples after `n` are taken out.
pub open spec fn still_waiting(known: nat, n: nat) -> nat {
    if n <= known { (known - n) as nat } else { 0 }
}

/// Number of samples that `push` accepts into a ring holding `contents`.
pub open spec fn accepted_count(contents: Seq<u32>, capacity: nat, items: Seq<u32>) -> nat {
    let room: int = capacity - contents.len();
    if items.len() <= room { items.len() } else if room < 0 { 0 } else { room as nat }
}

/// The contents after pushing `items` into a ring holding `contents`.
pub open spec fn after_push(contents: Seq<u32>, capacity: nat, items: Seq<u32>) -> Seq<u32> {
    contents + items.take(accepted_count(contents, capacity, items) as int)
}

/// Number of samples that a pop into a buffer of `room` slots takes out.
pub open spec fn popped_count(contents: Seq<u32>, room: nat) -> nat {
    if room <= contents.len() { room } else { contents.len() }
}

/// A ring buffer of samples that is not yet shared between threads.
#[verifier::external_body]
pub struct SampleRing {
    rb: ringbuf::HeapRb<u32>,
}

/// The writing half of a split ring; only the decoder holds it.
#[verifier::external_body]
pub struct SampleProducer {
    prod: ringbuf::HeapProd<u32>,
}

/// The reading half of a split ring; only the output callback holds it.
#[verifier::external_body]
pub struct SampleConsumer {
    cons: ringbuf::HeapCons<u32>,
}

impl SampleRing {
    /// Relies on `HeapRb::new`: an empty ring of the given capacity (it
    /// panics on capacity zero).
    #[verifier::external_body]
    pub fn new(capacity: usize) -> (r: SampleRing)
        requires
            capacity > 0,
        ensures
            ring_contents(r) == Seq::<u32>::empty(),
            ring_capacity(r) == capacity as nat,
    {
        SampleRing { rb: ringbuf::HeapRb::<u32>::new(capacity) }
    }

    /// Relies on `Producer::push_slice`: copies as many leading items as there
    /// are vacant places and returns how many it copied.
    #[verifier::external_body]
    pub fn push_slice(&mut self, items: &Vec<u32>) -> (n: usize)
        ensures
            n == accepted_count(ring_contents(*old(self)), ring_capacity(*old(self)), items@),
            ring_contents(*final(self)) == after_push(
                ring_contents(*old(self)),
                ring_capacity(*old(self)),
                items@,
            ),
            ring_capacity(*final(self)) == ring_capacity(*old(self)),
    {
        self.rb.push_slice(items.as_slice())
    }

    /// Relies on `Consumer::pop_slice`: moves the oldest items into the front of
    /// `out`, as many as fit, and returns how many it moved.
    #[verifier::external_body]
    pub fn pop_slice(&mut self, out: &mut Vec<u32>) -> (n: usize)
        ensures
            n == popped_count(ring_contents(*old(self)), old(out)@.len()),
            final(out)@ == ring_contents(*old(self)).take(n as int) + old(out)@.skip(n as int),
            ring_contents(*final(self)) == ring_contents(*old(self)).skip(n as int),
            ring_capacity(*final(self)) == ring_capacity(*old(self)),
    {
        self.rb.pop_slice(out.as_mut_slice())
    }

    /// Relies on `Split::split`: hands the ring to a producer and a consumer
    /// that share its capacity and have not yet pushed, seen or removed
    /// anything.
    #[verifier::external_body]
    pub fn split(self) -> (r: (SampleProducer, SampleConsumer))
        ensures
            pushed_items(r.0) == Seq::<u32>::empty(),
            producer_capacity(r.0) == ring_capacity(self),
            removed_items(r.1) == Seq::<u32>::empty(),
            known_waiting(r.1) == 0,
            consumer_capacity(r.1) == ring_capacity(self),
    {
        let (prod, cons) = self.rb.split();
        (SampleProducer { prod }, SampleConsumer { cons })
    }
}

impl SampleProducer {
    /// Relies on `Producer::push_slice`: appends a prefix of `items[start..]`
    /// and returns its length; the consumer may free room concurrently, so no
    /// more is promised of the length.
    #[verifier::external_body]
    pub fn push_from(&mut self, items: &Vec<u32>, start: usize) -> (n: usize)
        requires
            start <= items@.len(),
        ensures
            n <= items@.len() - start,
            pushed_items(*final(self)) == pushed_items(*old(self)) + items@.subrange(
                start as int,
                start + n,
            ),
            producer_capacity(*final(self)) == producer_capacity(*old(self)),
    {
        self.prod.push_slice(&items[start..])
    }
}

impl SampleConsumer {
    /// Relies on `Observer::occupied_len`: the number of samples waiting now.
    /// The consumer alone removes samples, so the count is at least what it
    /// knew to be waiting, and stays a lower bound until it removes more.
    #[verifier::external_body]
    pub fn occupied_len(&mut self) -> (n: usize)
        ensures
            known_waiting(*old(self)) <= n <= consumer_capacity(*old(self)),
            known_waiting(*final(self)) == n,
            removed_items(*final(self)) == removed_items(*old(self)),
            consumer_capacity(*final(self)) == consumer_capacity(*old(self)),
    {
        self.cons.occupied_len()
    }

    /// Relies on `Consumer::pop_slice`: moves the oldest samples into a prefix
    /// of `out`, as many as fit and are waiting, and returns its length; the
    /// rest of `out` is left as it was.
    #[verifier::external_body]
    pub fn pop_into(&mut self, out: &mut Vec<u32>) -> (n: usize)
        ensures
            n <= old(out)@.len(),
            n >= old(out)@.len() || n >= known_waiting(*old(self)),
            final(out)@.len() == old(out)@.len(),
            final(out)@.skip(n as int) == old(out)@.skip(n as int),
            removed_items(*final(self)) == removed_items(*old(self)) + final(out)@.take(n as int),
            known_waiting(*final(self)) == still_waiting(known_waiting(*old(self)), n as nat),
            consumer_capacity(*final(self)) == consumer_capacity(*old(self)),
    {
        self.cons.pop_slice(out.as_mut_slice())
    }

    /// Relies on `Consumer::skip`: drops the oldest samples, `count` of them
    /// where that many are waiting, and returns how many it dropped.
    #[verifier::external_body]
    pub fn skip(&mut self, count: usize) -> (n: usize)
        ensures
            n <= count,
            n >= count || n >= known_waiting(*old(self)),
            removed_items(*final(self)).len() == removed_items(*old(self)).len() + n,
            removed_items(*final(self)).take(removed_items(*old(self)).len() as int)
                == removed_items(*old(self)),
            known_waiting(*final(self)) == still_waiting(known_waiting(*old(self)), n as nat),
            consumer_capacity(*final(self)) == consumer_capacity(*old(self)),
    {
        self.cons.skip(count)
    }
}

/// Pushing `items` into an empty ring that can hold them all, then popping as
/// many samples as were pushed, gives back exactly `items`, in order, and
/// leaves the ring empty.
pub proof fn lemma_ring_round_trip(contents: Seq<u32>, capacity: nat, items: Seq<u32>)
    requires
        contents.len() == 0,
        items.len() <= capacity,
    ensures
        accepted_count(contents, capacity, items) == items.len(),
        popped_count(after_push(contents, capacity, items), items.len()) == items.len(),
        after_push(contents, capacity, items).take(items.len() as int) == items,
        after_push(contents, capacity, items).skip(items.len() as int) == Seq::<u32>::empty(),
{
    let pushed = after_push(contents, capacity, items);
    assert(items.take(items.len() as int) =~= items);
    assert(pushed =~= items);
    assert(pushed.take(items.len() as int) =~= items);
    assert(pushed.skip(items.len() as int) =~= Seq::<u32>::empty());
}

} // verus!
