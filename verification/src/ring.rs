//! The byte ring that buffers a connection's incoming data: `ringbuf`'s
//! single-threaded ring on heap storage, seen through its contents. (Verus
//! cannot declare `LocalRb` itself, whose parameter is bounded by an outside
//! trait, so the ring is held in a field that only the wrappers below touch.)
use vstd::prelude::*;
use ringbuf::LocalRb;
use ringbuf::storage::Heap;
use ringbuf::traits::{Consumer, Observer, Producer};

verus! {

/// A ring of bytes of fixed capacity.
#[verifier::external_body]
pub struct ByteRing {
    rb: LocalRb<Heap<u8>>,
}

/// The bytes in the ring, oldest first.
pub uninterp spec fn ring_contents(ring: ByteRing) -> Seq<u8>;

/// The number of bytes the ring can hold, fixed when it was made.
pub uninterp spec fn ring_capacity(ring: ByteRing) -> nat;

impl ByteRing {
    /// `LocalRb::new`: an empty ring of exactly `capacity` places (its storage
    /// is allocated at exactly that length; a zero capacity is refused by an
    /// assertion in the crate, so it is left out).
    #[verifier::external_body]
    pub(crate) fn new(capacity: usize) -> (r: ByteRing)
        requires
            capacity > 0,
        ensures
            ring_contents(r) == Seq::<u8>::empty(),
            ring_capacity(r) == capacity,
    {
        ByteRing { rb: LocalRb::new(capacity) }
    }

    /// `Observer::occupied_len`: the number of bytes held.
    #[verifier::external_body]
    pub(crate) fn occupied_len(&self) -> (n: usize)
        ensures
            n == ring_contents(*self).len(),
            n <= ring_capacity(*self),
    {
        self.rb.occupied_len()
    }

    /// `Consumer::try_pop`: remove and return the oldest byte, if any.
    #[verifier::external_body]
    pub(crate) fn try_pop(&mut self) -> (r: Option<u8>)
        ensures
            ring_capacity(*final(self)) == ring_capacity(*old(self)),
            ring_contents(*old(self)).len() == 0 ==> r is None && ring_contents(*final(self))
                == ring_contents(*old(self)),
            ring_contents(*old(self)).len() > 0 ==> r == Some(ring_contents(*old(self))[0])
                && ring_contents(*final(self)) == ring_contents(*old(self)).drop_first(),
    {
        self.rb.try_pop()
    }

    /// `Consumer::try_peek`: the oldest byte, if any, left in place.
    #[verifier::external_body]
    pub(crate) fn try_peek(&self) -> (r: Option<u8>)
        ensures
            ring_contents(*self).len() == 0 ==> r is None,
            ring_contents(*self).len() > 0 ==> r == Some(ring_contents(*self)[0]),
    {
        self.rb.try_peek().copied()
    }

    /// `Consumer::skip`: drop the `count` oldest bytes, or all of them if
    /// fewer are held; returns how many were dropped.
    #[verifier::external_body]
    pub(crate) fn skip(&mut self, count: usize) -> (n: usize)
        ensures
            ring_capacity(*final(self)) == ring_capacity(*old(self)),
            n == if count < ring_contents(*old(self)).len() {
                count as nat
            } else {
                ring_contents(*old(self)).len()
            },
            ring_contents(*final(self)) == ring_contents(*old(self)).skip(n as int),
    {
        self.rb.skip(count)
    }

    /// `Consumer::clear`: drop every byte; returns how many were dropped.
    #[verifier::external_body]
    pub(crate) fn clear(&mut self) -> (n: usize)
        ensures
            ring_capacity(*final(self)) == ring_capacity(*old(self)),
            n == ring_contents(*old(self)).len(),
            ring_contents(*final(self)) == Seq::<u8>::empty(),
    {
        self.rb.clear()
    }

    /// `Consumer::peek_slice`: copy the oldest bytes into the front of `buf`,
    /// as many as fit, leaving the ring as it was; returns how many.
    #[verifier::external_body]
    pub(crate) fn peek_slice(&self, buf: &mut [u8]) -> (n: usize)
        ensures
            n == if old(buf)@.len() < ring_contents(*self).len() {
                old(buf)@.len()
            } else {
                ring_contents(*self).len()
            },
            final(buf)@ == ring_contents(*self).take(n as int) + old(buf)@.skip(n as int),
    {
        self.rb.peek_slice(buf)
    }

    /// `Consumer::pop_slice`: move the oldest bytes into the front of `buf`,
    /// as many as fit; returns how many.
    #[verifier::external_body]
    pub(crate) fn pop_slice(&mut self, buf: &mut [u8]) -> (n: usize)
        ensures
            ring_capacity(*final(self)) == ring_capacity(*old(self)),
            n == if old(buf)@.len() < ring_contents(*old(self)).len() {
                old(buf)@.len()
            } else {
                ring_contents(*old(self)).len()
            },
            final(buf)@ == ring_contents(*old(self)).take(n as int) + old(buf)@.skip(n as int),
            ring_contents(*final(self)) == ring_contents(*old(self)).skip(n as int),
    {
        self.rb.pop_slice(buf)
    }

    /// `Producer::push_slice`: append as much of `data` as there is room for;
    /// returns how many bytes were taken.
    #[verifier::external_body]
    pub(crate) fn push_slice(&mut self, data: &[u8]) -> (n: usize)
        ensures
            ring_capacity(*final(self)) == ring_capacity(*old(self)),
            n == if data@.len() < ring_capacity(*old(self)) - ring_contents(*old(self)).len() {
                data@.len() as int
            } else {
                ring_capacity(*old(self)) - ring_contents(*old(self)).len()
            },
            ring_contents(*final(self)) == ring_contents(*old(self)) + data@.take(n as int),
    {
        self.rb.push_slice(data)
    }
}

} // verus!
