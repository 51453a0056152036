//! The byte ring buffer that carries captured audio to its consumer.
//!
//! The buffer itself is `ringbuf::HeapRb<u8>`. Verus does not look inside it:
//! the items of this file say what each of its methods does to the bytes it
//! holds, and the stream logic elsewhere is verified against them.

use vstd::prelude::*;
use ringbuf::Rb;

verus! {

/// A fixed-capacity queue of bytes, kept in a `ringbuf::HeapRb<u8>`.
#[verifier::external_body]
pub struct ByteRing {
    inner: ringbuf::HeapRb<u8>,
}

/// The bytes that a ring buffer holds, oldest first.
pub uninterp spec fn ring_contents(ring: ByteRing) -> Seq<u8>;

/// The number of bytes that a ring buffer was made to hold.
pub uninterp spec fn ring_capacity(ring: ByteRing) -> nat;

/// `HeapRb::new`: an empty buffer of the given capacity. The constructor
/// panics on a capacity of zero, which is left out.
#[verifier::external_body]
pub(crate) fn ring_new(capacity: usize) -> (ring: ByteRing)
    requires
        0 < capacity <= isize::MAX,
    ensures
        ring_contents(ring) == Seq::<u8>::empty(),
        ring_capacity(ring) == capacity,
{
    ByteRing { inner: ringbuf::HeapRb::new(capacity) }
}

/// `Rb::len`: the number of bytes stored, never more than the capacity.
#[verifier::external_body]
pub(crate) fn ring_len(ring: &ByteRing) -> (len: usize)
    ensures
        len == ring_contents(*ring).len(),
        len <= ring_capacity(*ring),
{
    ring.inner.len()
}

/// `Rb::free_len`: the number of bytes that still fit.
#[verifier::external_body]
pub(crate) fn ring_free_len(ring: &ByteRing) -> (free: usize)
    ensures
        free == ring_capacity(*ring) - ring_contents(*ring).len(),
{
    ring.inner.free_len()
}

/// `Rb::push_slice` on the first `count` bytes of `bytes`: they are appended
/// behind what the buffer holds. The method panics where they do not fit,
/// which is left out.
#[verifier::external_body]
pub(crate) fn ring_push_slice(ring: &mut ByteRing, bytes: &[u8], count: usize)
    requires
        count <= bytes@.len(),
        ring_contents(*old(ring)).len() + count <= ring_capacity(*old(ring)),
    ensures
        ring_contents(*final(ring)) == ring_contents(*old(ring)) + bytes@.take(count as int),
        ring_capacity(*final(ring)) == ring_capacity(*old(ring)),
{
    ring.inner.push_slice(&bytes[..count]);
}

/// `Rb::pop_slice` into the first `count` bytes of `buf`: the oldest `count`
/// bytes leave the buffer and are written there, the rest of `buf` stays as it
/// was. The method panics where the buffer holds fewer, which is left out.
#[verifier::external_body]
pub(crate) fn ring_pop_slice(ring: &mut ByteRing, buf: &mut [u8], count: usize)
    requires
        count <= old(buf)@.len(),
        count <= ring_contents(*old(ring)).len(),
    ensures
        final(buf)@ == ring_contents(*old(ring)).take(count as int) + old(buf)@.skip(count as int),
        ring_contents(*final(ring)) == ring_contents(*old(ring)).skip(count as int),
        ring_capacity(*final(ring)) == ring_capacity(*old(ring)),
{
    ring.inner.pop_slice(&mut buf[..count]);
}

/// `Rb::clear`: every byte is dropped; the count of them is returned.
#[verifier::external_body]
pub(crate) fn ring_clear(ring: &mut ByteRing) -> (dropped: usize)
    ensures
        dropped == ring_contents(*old(ring)).len(),
        ring_contents(*final(ring)) == Seq::<u8>::empty(),
        ring_capacity(*final(ring)) == ring_capacity(*old(ring)),
{
    ring.inner.clear()
}

} // verus!
