//! Fixed-capacity sample channel between a capture callback and the
//! processing thread (and between the processing thread and playback).
//!
//! Samples travel as their IEEE-754 bit patterns (`u64`), which the channel
//! moves without looking at them. Storage is a `ringbuf` heap ring buffer.
use vstd::prelude::*;
use ringbuf::Rb;

verus! {

/// The `ringbuf` heap ring buffer behind a channel. Verus cannot take the
/// declaration of `ringbuf::SharedRb`, whose container parameter is bound by
/// an outside trait, so the buffer is held here, out of Verus's sight, and
/// described by `ring_items` and `ring_places`.
#[verifier::external_body]
pub struct SampleRing {
    rb: ringbuf::HeapRb<u64>,
}

/// The items held by a ring buffer, oldest first.
pub uninterp spec fn ring_items(rb: SampleRing) -> Seq<u64>;

/// The fixed number of places of a ring buffer.
pub uninterp spec fn ring_places(rb: SampleRing) -> nat;

/// Relies on `HeapRb::new`: an empty ring buffer with `capacity` places
/// (it panics on a zero capacity).
#[verifier::external_body]
fn ring_new(capacity: usize) -> (rb: SampleRing)
    requires
        capacity > 0,
    ensures
        ring_items(rb) == Seq::<u64>::empty(),
        ring_places(rb) == capacity,
{
    SampleRing { rb: ringbuf::HeapRb::<u64>::new(capacity) }
}

/// Relies on `Rb::len`: the number of items stored; never above the capacity.
#[verifier::external_body]
fn ring_len(rb: &SampleRing) -> (n: usize)
    ensures
        n == ring_items(*rb).len(),
        n <= ring_places(*rb),
{
    rb.rb.len()
}

/// Relies on `Rb::push_slice`: appends all of `items` after the stored ones
/// (it panics when they do not fit in the free places).
#[verifier::external_body]
fn ring_push_slice(rb: &mut SampleRing, items: &[u64])
    requires
        ring_items(*old(rb)).len() + items@.len() <= ring_places(*old(rb)),
    ensures
        ring_items(*final(rb)) == ring_items(*old(rb)) + items@,
        ring_places(*final(rb)) == ring_places(*old(rb)),
{
    rb.rb.push_slice(items)
}

/// Relies on `Rb::pop_slice`: removes the `n` oldest items and writes them,
/// in order, to the first `n` places of `buf` (it panics when fewer than `n`
/// are stored).
#[verifier::external_body]
fn ring_pop_slice(rb: &mut SampleRing, buf: &mut [u64], n: usize)
    requires
        n <= old(buf)@.len(),
        n <= ring_items(*old(rb)).len(),
    ensures
        final(buf)@ == ring_items(*old(rb)).take(n as int) + old(buf)@.skip(n as int),
        ring_items(*final(rb)) == ring_items(*old(rb)).skip(n as int),
        ring_places(*final(rb)) == ring_places(*old(rb)),
{
    rb.rb.pop_slice(&mut buf[..n])
}

/// A single-producer / single-consumer sample channel of fixed capacity.
///
/// Writes beyond the free space are truncated and reads beyond the stored
/// samples are short; nothing ever blocks or grows.
pub struct AudioRingBuffer {
    rb: SampleRing,
    capacity: usize,
    written: Ghost<nat>,
    taken: Ghost<nat>,
}

impl AudioRingBuffer {
    /// The samples in flight, oldest first.
    pub closed spec fn contents(&self) -> Seq<u64> {
        ring_items(self.rb)
    }

    /// The fixed capacity C.
    pub closed spec fn capacity_spec(&self) -> nat {
        self.capacity as nat
    }

    /// The number of samples written since creation.
    pub closed spec fn total_written(&self) -> nat {
        self.written@
    }

    /// The number of samples read since creation.
    pub closed spec fn total_read(&self) -> nat {
        self.taken@
    }

    /// Internal consistency: the counters account for the samples in flight,
    /// which never exceed the capacity.
    pub closed spec fn wf(&self) -> bool {
        &&& ring_places(self.rb) == self.capacity
        &&& self.capacity > 0
        &&& ring_items(self.rb).len() <= self.capacity
        &&& self.taken@ <= self.written@
        &&& self.written@ - self.taken@ == ring_items(self.rb).len()
    }

    /// A new, empty channel of the given capacity (in samples).
    pub fn new(capacity: usize) -> (r: Self)
        requires
            capacity > 0,
        ensures
            r.wf(),
            r.contents() == Seq::<u64>::empty(),
            r.capacity_spec() == capacity,
            r.total_written() == 0,
            r.total_read() == 0,
    {
        AudioRingBuffer {
            rb: ring_new(capacity),
            capacity,
            written: Ghost(0),
            taken: Ghost(0),
        }
    }

    /// The capacity C in samples.
    pub fn capacity(&self) -> (c: usize)
        requires
            self.wf(),
        ensures
            c == self.capacity_spec(),
    {
        self.capacity
    }

    /// The number of samples available to read.
    pub fn len(&self) -> (n: usize)
        requires
            self.wf(),
        ensures
            n == self.contents().len(),
    {
        ring_len(&self.rb)
    }

    /// The number of samples that can be written without truncation.
    pub fn free_len(&self) -> (n: usize)
        requires
            self.wf(),
        ensures
            n == self.capacity_spec() - self.contents().len(),
    {
        self.capacity - ring_len(&self.rb)
    }

    /// Whether `n` samples can be written without truncation.
    pub fn has_space(&self, n: usize) -> (b: bool)
        requires
            self.wf(),
        ensures
            b == (self.contents().len() + n <= self.capacity_spec()),
    {
        self.free_len() >= n
    }

    /// Whether at least `n` samples are available to read.
    pub fn has_data(&self, n: usize) -> (b: bool)
        requires
            self.wf(),
        ensures
            b == (self.contents().len() >= n),
    {
        self.len() >= n
    }

    /// Whether no sample is available to read.
    pub fn is_empty(&self) -> (b: bool)
        requires
            self.wf(),
        ensures
            b == (self.contents().len() == 0),
    {
        self.len() == 0
    }

    /// Writes min(len, free space) samples from the front of `samples` and
    /// returns that count; the rest is dropped.
    pub fn write(&mut self, samples: &[u64]) -> (n: usize)
        requires
            old(self).wf(),
        ensures
            final(self).wf(),
            n == vstd::math::min(samples@.len() as int, old(self).capacity_spec() - old(self).contents().len()),
            final(self).contents() == old(self).contents() + samples@.take(n as int),
            final(self).capacity_spec() == old(self).capacity_spec(),
            final(self).total_written() == old(self).total_written() + n,
            final(self).total_read() == old(self).total_read(),
    {
        let free = self.free_len();
        let n = if samples.len() < free {
            samples.len()
        } else {
            free
        };
        let part = vstd::slice::slice_subrange(samples, 0, n);
        ring_push_slice(&mut self.rb, part);
        self.written = Ghost(self.written@ + n as nat);
        proof {
            assert(part@ == samples@.take(n as int));
        }
        n
    }

    /// Moves min(buffer length, available) of the oldest samples into the
    /// front of `buffer`, in order, and returns that count; the rest of
    /// `buffer` is left as it was.
    pub fn read(&mut self, buffer: &mut [u64]) -> (n: usize)
        requires
            old(self).wf(),
        ensures
            final(self).wf(),
            n == vstd::math::min(old(buffer)@.len() as int, old(self).contents().len() as int),
            final(buffer)@ == old(self).contents().take(n as int) + old(buffer)@.skip(n as int),
            final(self).contents() == old(self).contents().skip(n as int),
            final(self).capacity_spec() == old(self).capacity_spec(),
            final(self).total_written() == old(self).total_written(),
            final(self).total_read() == old(self).total_read() + n,
    {
        let avail = ring_len(&self.rb);
        let n = if buffer.len() < avail {
            buffer.len()
        } else {
            avail
        };
        ring_pop_slice(&mut self.rb, buffer, n);
        self.taken = Ghost(self.taken@ + n as nat);
        n
    }
}

/// Whatever sequence of writes and reads a channel has seen, the samples
/// read never exceed the samples written, and the samples in flight never
/// exceed the capacity.
pub proof fn lemma_in_flight_bounded(ch: &AudioRingBuffer)
    requires
        ch.wf(),
    ensures
        ch.total_read() <= ch.total_written(),
        ch.total_written() - ch.total_read() == ch.contents().len(),
        ch.contents().len() <= ch.capacity_spec(),
{
}

} // verus!
