//! The format of the audio that is captured and handed on: interleaved
//! stereo samples of four bytes each, little-endian, at 48 kHz.

use vstd::prelude::*;

verus! {

/// Samples per second and channel.
pub const SAMPLE_RATE: usize = 48000;

/// The bytes of one sample.
pub const SAMPLE_IN_BYTES: usize = 4;

/// The bytes of one frame, which holds a sample of each of the two channels.
pub const FRAME_IN_BYTES: usize = 8;

/// The audio that the ring buffer holds at most, in milliseconds.
pub const LATENCY_IN_MILLISECONDS: usize = 50;

/// The capacity of the ring buffer in bytes: the frames of
/// [`LATENCY_IN_MILLISECONDS`] of audio.
pub const BUFFER_SIZE: usize = 19200;

/// The size of the fragments in which the audio server is asked to deliver.
pub const FRAGMENT_SIZE: u32 = 9600;

/// The buffer holds a whole number of frames, as many as the latency asks for.
pub proof fn lemma_buffer_size()
    ensures
        BUFFER_SIZE == FRAME_IN_BYTES * (SAMPLE_RATE * LATENCY_IN_MILLISECONDS / 1000),
        FRAME_IN_BYTES == 2 * SAMPLE_IN_BYTES,
        FRAGMENT_SIZE == BUFFER_SIZE / 2,
{
}

} // verus!
