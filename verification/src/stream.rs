//! The pull side of the audio pipeline: a byte queue that is filled with
//! captured audio and read in whole stereo frames.

use vstd::prelude::*;
use crate::format::{BUFFER_SIZE, FRAME_IN_BYTES};
use crate::ring::{
    ring_capacity, ring_clear, ring_contents, ring_free_len, ring_len, ring_new, ring_pop_slice,
    ring_push_slice, ByteRing,
};

verus! {

/// The smaller of two lengths.
pub open spec fn least(a: int, b: int) -> int {
    if a <= b {
        a
    } else {
        b
    }
}

/// The longest whole number of frames within `len` bytes.
pub open spec fn whole_frames(len: int) -> int {
    (len / 8) * 8
}

/// The number of bytes that a read moves where `waiting` bytes wait and the
/// buffer takes `room`: the longest run of whole frames that is both there
/// and fits.
pub open spec fn readable(room: int, waiting: int) -> int {
    whole_frames(least(room, waiting))
}

/// Buffered audio on its way to the consumer.
pub struct AudioStream {
    ring: ByteRing,
}

impl AudioStream {
    /// The bytes that wait to be read, oldest first.
    pub closed spec fn contents(self) -> Seq<u8> {
        ring_contents(self.ring)
    }

    /// The number of bytes that the stream holds at most.
    pub closed spec fn capacity(self) -> nat {
        ring_capacity(self.ring)
    }

    /// An empty stream of the standard capacity, [`BUFFER_SIZE`].
    pub fn new() -> (stream: Self)
        ensures
            stream.contents() == Seq::<u8>::empty(),
            stream.capacity() == BUFFER_SIZE,
    {
        AudioStream { ring: ring_new(BUFFER_SIZE) }
    }

    /// An empty stream that holds up to `capacity` bytes.
    pub fn with_capacity(capacity: usize) -> (stream: Self)
        requires
            0 < capacity <= isize::MAX,
        ensures
            stream.contents() == Seq::<u8>::empty(),
            stream.capacity() == capacity,
    {
        AudioStream { ring: ring_new(capacity) }
    }

    /// The number of bytes that wait to be read, which is never more than
    /// the capacity.
    pub fn len(&self) -> (len: usize)
        ensures
            len == self.contents().len(),
            self.contents().len() <= self.capacity(),
    {
        ring_len(&self.ring)
    }

    /// Appends as much of `bytes` as fits and tells how many bytes that
    /// were. What does not fit is dropped: the stream never grows beyond its
    /// capacity.
    pub fn write(&mut self, bytes: &[u8]) -> (pushed: usize)
        ensures
            pushed == least(bytes@.len() as int, old(self).capacity() - old(self).contents().len()),
            final(self).contents() == old(self).contents() + bytes@.take(pushed as int),
            final(self).capacity() == old(self).capacity(),
            final(self).contents().len() <= final(self).capacity(),
    {
        let free = ring_free_len(&self.ring);
        let pushed = if bytes.len() < free { bytes.len() } else { free };
        ring_push_slice(&mut self.ring, bytes, pushed);
        let _ = ring_len(&self.ring);
        pushed
    }

    /// Moves the audio that waits into the front of `buf`, in whole frames
    /// only, and returns the number of bytes moved: the longest run of whole
    /// frames that waits and fits `buf`. That is zero while less than a frame
    /// waits, and then nothing is taken: a part of a frame stays in the
    /// stream until the rest of it has come. The bytes of `buf` beyond the
    /// count are left as they were.
    pub fn read(&mut self, buf: &mut [u8]) -> (count: usize)
        ensures
            count == readable(old(buf)@.len() as int, old(self).contents().len() as int),
            count % FRAME_IN_BYTES == 0,
            final(buf)@ == old(self).contents().take(count as int) + old(buf)@.skip(count as int),
            final(self).contents() == old(self).contents().skip(count as int),
            final(self).capacity() == old(self).capacity(),
            final(self).contents().len() <= final(self).capacity(),
    {
        let available = ring_len(&self.ring);
        let room = if buf.len() < available { buf.len() } else { available };
        let count = room / FRAME_IN_BYTES * FRAME_IN_BYTES;
        ring_pop_slice(&mut self.ring, buf, count);
        let _ = ring_len(&self.ring);
        count
    }

    /// Drops the audio that waits to be read.
    pub fn clear(&mut self)
        ensures
            final(self).contents() == Seq::<u8>::empty(),
            final(self).capacity() == old(self).capacity(),
            final(self).contents().len() <= final(self).capacity(),
    {
        let _ = ring_clear(&mut self.ring);
    }
}

} // verus!
