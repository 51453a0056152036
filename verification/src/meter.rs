//! A peak meter with instant attack and a release that the caller shapes.
//!
//! Samples are single-precision numbers, and so is the value of the meter.
//! Both are kept as their bit patterns: the meter only ever compares them,
//! which the bits decide. The arithmetic of the release is the caller's.

use vstd::prelude::*;
use crate::format::{FRAME_IN_BYTES, SAMPLE_IN_BYTES, SAMPLE_RATE};

verus! {

/// The bit that holds the sign of a single-precision number.
pub const SIGN_BIT: u32 = 0x8000_0000;

/// The bits of positive infinity: every larger magnitude is not a number.
pub const INFINITY_BITS: u32 = 0x7F80_0000;

/// The samples that a meter looks back on.
pub const DEFAULT_WINDOW_SIZE: usize = 2000;

/// The window is a twenty-fourth of a second long.
pub proof fn lemma_window_size()
    ensures
        DEFAULT_WINDOW_SIZE == SAMPLE_RATE / 24,
{
}

/// The sample that the four bytes at `4 * i` spell, lowest byte first.
pub open spec fn sample_at(bytes: Seq<u8>, i: int) -> u32 {
    (bytes[4 * i] as int + bytes[4 * i + 1] as int * 0x100 + bytes[4 * i + 2] as int * 0x1_0000
        + bytes[4 * i + 3] as int * 0x100_0000) as u32
}

/// The samples of a run of bytes; bytes beyond the last whole sample are
/// left out.
pub open spec fn samples(bytes: Seq<u8>) -> Seq<u32> {
    Seq::new((bytes.len() / 4) as nat, |i: int| sample_at(bytes, i))
}

/// The bytes of one channel of interleaved stereo audio; bytes beyond the
/// last whole frame are left out.
pub open spec fn channel_bytes(bytes: Seq<u8>, channel: int) -> Seq<u8> {
    Seq::new(
        ((bytes.len() / 8) * 4) as nat,
        |i: int| bytes[(i / 4) * 8 + channel * 4 + i % 4],
    )
}

/// The number without its sign.
pub open spec fn magnitude(bits: u32) -> u32 {
    (bits % 0x8000_0000) as u32
}

/// The bits stand for no number.
pub open spec fn not_a_number(bits: u32) -> bool {
    magnitude(bits) > INFINITY_BITS
}

/// Where the number stands on the number line, up to scale: numbers compare
/// as these do.
pub open spec fn rank(bits: u32) -> int {
    if bits >= SIGN_BIT {
        -(magnitude(bits) as int)
    } else {
        magnitude(bits) as int
    }
}

/// `a > b` as single-precision numbers: false where either is no number.
pub open spec fn greater(a: u32, b: u32) -> bool {
    !not_a_number(a) && !not_a_number(b) && rank(a) > rank(b)
}

/// The bits stand for a level: a number that is not negative.
pub open spec fn level(bits: u32) -> bool {
    bits <= INFINITY_BITS
}

/// A level may fall to `released`: that is a level, and not greater than
/// the level before.
pub open spec fn falls_to(value: u32, released: u32) -> bool {
    level(released) && !greater(released, value)
}

/// The first of two numbers where it is the greater, else the second.
pub open spec fn louder(a: u32, b: u32) -> u32 {
    if greater(a, b) {
        a
    } else {
        b
    }
}

/// The peak of some samples: starting from zero, each sample in turn
/// replaces the peak unless the peak is greater than its magnitude.
pub open spec fn peak(window: Seq<u32>) -> u32
    decreases window.len(),
{
    if window.len() == 0 {
        0
    } else {
        louder(peak(window.drop_last()), magnitude(window.last()))
    }
}

/// The newest `size` samples, or all of them where they are fewer.
pub open spec fn windowed(all: Seq<u32>, size: nat) -> Seq<u32> {
    if all.len() > size {
        all.skip(all.len() - size)
    } else {
        all
    }
}

/// `count` samples of silence.
pub open spec fn silence(count: nat) -> Seq<u32> {
    Seq::new(count, |i: int| 0u32)
}

/// Measures the level of one channel.
#[derive(Debug)]
pub struct Meter {
    window_size: usize,
    current_value: u32,
    since_peak: u64,
    buffer: Vec<u32>,
}

/// What a meter holds, as plain values.
pub struct MeterView {
    /// The samples that the meter looks back on at most.
    pub window_size: nat,
    /// The level, as the bits of a single-precision number.
    pub value: u32,
    /// The samples of time that went by since the level last jumped to a
    /// peak, as far as a `u64` counts.
    pub since_peak: u64,
    /// The samples in the window, oldest first.
    pub window: Seq<u32>,
}

/// Measures the level of the two channels of stereo audio.
#[derive(Debug)]
pub struct StereoMeter {
    left: Meter,
    right: Meter,
}

impl MeterView {
    /// The meter after one step: where the peak of the window is greater
    /// than the value, the value jumps to it and the time since the last
    /// peak starts anew; else the value falls to `released`, if that is a
    /// level and not above the value, and stays where it is if not. The
    /// level never rises but to a peak.
    pub open spec fn processed(self, released: u32) -> MeterView {
        if greater(peak(self.window), self.value) {
            MeterView { value: peak(self.window), since_peak: 0, ..self }
        } else if falls_to(self.value, released) {
            MeterView { value: released, ..self }
        } else {
            self
        }
    }

    /// The meter after the samples of `bytes` entered the window.
    pub open spec fn written(self, bytes: Seq<u8>) -> MeterView {
        MeterView { window: windowed(self.window + samples(bytes), self.window_size), ..self }
    }

    /// The meter after `amount` samples of time went by: as many samples of
    /// silence pushed as many of the oldest samples out of the window.
    pub open spec fn drained(self, amount: nat) -> MeterView {
        MeterView {
            window: (self.window + silence(amount)).skip(amount as int),
            since_peak: if self.since_peak + amount <= u64::MAX {
                (self.since_peak + amount) as u64
            } else {
                u64::MAX
            },
            ..self
        }
    }
}

impl View for Meter {
    type V = MeterView;

    closed spec fn view(&self) -> MeterView {
        MeterView {
            window_size: self.window_size as nat,
            value: self.current_value,
            since_peak: self.since_peak,
            window: self.buffer@,
        }
    }
}

/// Tells whether `a > b` holds of the numbers that the bits stand for.
pub fn is_greater(a: u32, b: u32) -> (gt: bool)
    ensures
        gt == greater(a, b),
{
    let a_magnitude: u32 = if a >= SIGN_BIT { a - SIGN_BIT } else { a };
    let b_magnitude: u32 = if b >= SIGN_BIT { b - SIGN_BIT } else { b };
    if a_magnitude > INFINITY_BITS || b_magnitude > INFINITY_BITS {
        return false;
    }
    if a >= SIGN_BIT {
        // A negative number is greater only than a negative of larger magnitude.
        b >= SIGN_BIT && a_magnitude < b_magnitude
    } else if b >= SIGN_BIT {
        a_magnitude > 0 || b_magnitude > 0
    } else {
        a_magnitude > b_magnitude
    }
}

/// The greater of two numbers as the fold of the peak takes it: the second
/// unless the first is greater.
pub fn faster_max(a: u32, b: u32) -> (max: u32)
    ensures
        max == louder(a, b),
{
    if is_greater(a, b) {
        a
    } else {
        b
    }
}

/// Reads the samples out of a run of bytes, four bytes each, lowest first.
pub fn raw_samples_from_bytes(bytes: &[u8]) -> (read: Vec<u32>)
    ensures
        read@ == samples(bytes@),
{
    let count = bytes.len() / SAMPLE_IN_BYTES;
    let mut read: Vec<u32> = Vec::new();
    let mut i: usize = 0;
    while i < count
        invariant
            i <= count,
            count == bytes@.len() / 4,
            bytes@.len() <= usize::MAX,
            read.len() == i,
            forall|k: int| 0 <= k < i ==> #[trigger] read@[k] == sample_at(bytes@, k),
        decreases count - i,
    {
        let b0 = bytes[4 * i] as u32;
        let b1 = bytes[4 * i + 1] as u32;
        let b2 = bytes[4 * i + 2] as u32;
        let b3 = bytes[4 * i + 3] as u32;
        read.push(b0 + b1 * 0x100 + b2 * 0x1_0000 + b3 * 0x100_0000);
        i = i + 1;
    }
    proof {
        assert(read@ =~= samples(bytes@));
    }
    read
}

/// Picks the bytes of one channel out of interleaved stereo audio.
pub fn deinterleave(bytes: &[u8], right: bool) -> (channel: Vec<u8>)
    ensures
        channel@ == channel_bytes(bytes@, if right { 1int } else { 0int }),
{
    let frames = bytes.len() / FRAME_IN_BYTES;
    let offset: usize = if right { SAMPLE_IN_BYTES } else { 0 };
    let mut channel: Vec<u8> = Vec::new();
    let mut f: usize = 0;
    while f < frames
        invariant
            f <= frames,
            frames == bytes@.len() / 8,
            bytes@.len() <= usize::MAX,
            offset == (if right { 4int } else { 0int }),
            channel.len() == f * 4,
            forall|k: int|
                0 <= k < f * 4 ==> #[trigger] channel@[k] == bytes@[(k / 4) * 8 + offset + k % 4],
        decreases frames - f,
    {
        let start = f * FRAME_IN_BYTES + offset;
        channel.push(bytes[start]);
        channel.push(bytes[start + 1]);
        channel.push(bytes[start + 2]);
        channel.push(bytes[start + 3]);
        f = f + 1;
    }
    proof {
        assert(channel@ =~= channel_bytes(bytes@, if right { 1int } else { 0int }));
    }
    channel
}

impl Meter {
    /// A meter at rest: no samples, the level at zero.
    pub fn new() -> (meter: Self)
        ensures
            meter@.window_size == DEFAULT_WINDOW_SIZE,
            meter@.value == 0,
            meter@.since_peak == 0,
            meter@.window == Seq::<u32>::empty(),
    {
        Meter { window_size: DEFAULT_WINDOW_SIZE, current_value: 0, since_peak: 0, buffer: Vec::new() }
    }

    /// Takes the samples of `buf` into the window. What no longer fits
    /// leaves at the old end.
    pub fn write(&mut self, buf: &[u8])
        ensures
            final(self)@ == old(self)@.written(buf@),
            final(self)@.window.len() <= final(self)@.window_size,
    {
        let new_samples = raw_samples_from_bytes(buf);
        self.write_samples(&new_samples);
    }

    /// Takes samples into the window.
    fn write_samples(&mut self, new_samples: &Vec<u32>)
        ensures
            final(self)@ == (MeterView {
                window: windowed(old(self)@.window + new_samples@, old(self)@.window_size),
                ..old(self)@
            }),
            final(self)@.window.len() <= final(self)@.window_size,
    {
        let size = self.window_size;
        let ghost all = self.buffer@ + new_samples@;
        let mut kept: Vec<u32> = Vec::new();
        // How many of the new samples stay, and how many of the old ones
        // beside them.
        let new_from: usize = if new_samples.len() > size {
            new_samples.len() - size
        } else {
            0
        };
        let room: usize = size - (new_samples.len() - new_from);
        let old_from: usize = if self.buffer.len() > room {
            self.buffer.len() - room
        } else {
            0
        };
        let ghost dropped: int = old_from + new_from;
        proof {
            assert(new_from > 0 ==> old_from == self.buffer.len());
            assert(windowed(all, size as nat) == all.skip(dropped)) by {
                if all.len() > size {
                    assert(dropped == all.len() - size);
                } else {
                    assert(dropped == 0);
                    assert(all.skip(0) == all);
                }
            }
        }
        let mut i: usize = old_from;
        while i < self.buffer.len()
            invariant
                old_from <= i <= self.buffer.len(),
                self.buffer == old(self).buffer,
                self.window_size == old(self).window_size,
                self.current_value == old(self).current_value,
                self.since_peak == old(self).since_peak,
                kept@ == self.buffer@.subrange(old_from as int, i as int),
            decreases self.buffer.len() - i,
        {
            kept.push(self.buffer[i]);
            proof {
                assert(kept@ =~= self.buffer@.subrange(old_from as int, i + 1));
            }
            i = i + 1;
        }
        let mut j: usize = new_from;
        while j < new_samples.len()
            invariant
                new_from <= j <= new_samples.len(),
                self.buffer == old(self).buffer,
                self.window_size == old(self).window_size,
                self.current_value == old(self).current_value,
                self.since_peak == old(self).since_peak,
                kept@ == self.buffer@.subrange(old_from as int, self.buffer.len() as int)
                    + new_samples@.subrange(new_from as int, j as int),
            decreases new_samples.len() - j,
        {
            kept.push(new_samples[j]);
            proof {
                assert(kept@ =~= self.buffer@.subrange(old_from as int, self.buffer.len() as int)
                    + new_samples@.subrange(new_from as int, j + 1));
            }
            j = j + 1;
        }
        proof {
            assert(kept@ =~= all.skip(dropped));
        }
        self.buffer = kept;
    }

    /// Slides the window on by `amount` samples of silence: as many of the
    /// oldest samples leave.
    pub fn drain(&mut self, amount: usize)
        ensures
            final(self)@ == old(self)@.drained(amount as nat),
            final(self)@.window.len() == old(self)@.window.len(),
    {
        let len = self.buffer.len();
        let mut kept: Vec<u32> = Vec::new();
        let from: usize = if amount < len { amount } else { len };
        let mut i: usize = from;
        while i < len
            invariant
                from <= i <= len,
                len == self.buffer.len(),
                self.buffer == old(self).buffer,
                self.window_size == old(self).window_size,
                self.current_value == old(self).current_value,
                self.since_peak == old(self).since_peak,
                kept@ == self.buffer@.subrange(from as int, i as int),
            decreases len - i,
        {
            kept.push(self.buffer[i]);
            proof {
                assert(kept@ =~= self.buffer@.subrange(from as int, i + 1));
            }
            i = i + 1;
        }
        let mut z: usize = 0;
        while z < from
            invariant
                z <= from <= len,
                len == self.buffer.len(),
                self.buffer == old(self).buffer,
                self.window_size == old(self).window_size,
                self.current_value == old(self).current_value,
                self.since_peak == old(self).since_peak,
                kept@ == self.buffer@.subrange(from as int, len as int) + silence(z as nat),
            decreases from - z,
        {
            kept.push(0);
            proof {
                assert(kept@ =~= self.buffer@.subrange(from as int, len as int) + silence(
                    (z + 1) as nat,
                ));
            }
            z = z + 1;
        }
        proof {
            assert(kept@ =~= (self.buffer@ + silence(amount as nat)).skip(amount as int));
        }
        self.buffer = kept;
        self.since_peak = if amount as u64 <= u64::MAX - self.since_peak {
            self.since_peak + amount as u64
        } else {
            u64::MAX
        };
    }

    /// The peak of the window.
    pub fn peak(&self) -> (max: u32)
        ensures
            max == peak(self@.window),
    {
        let mut max: u32 = 0;
        let mut i: usize = 0;
        while i < self.buffer.len()
            invariant
                i <= self.buffer.len(),
                max == peak(self.buffer@.take(i as int)),
            decreases self.buffer.len() - i,
        {
            let sample = self.buffer[i];
            let abs: u32 = if sample >= SIGN_BIT { sample - SIGN_BIT } else { sample };
            proof {
                assert(self.buffer@.take(i + 1).drop_last() == self.buffer@.take(i as int));
            }
            max = faster_max(max, abs);
            i = i + 1;
        }
        proof {
            assert(self.buffer@.take(i as int) == self.buffer@);
        }
        max
    }

    /// Moves the level one step: up to the peak of the window at once, or
    /// down to `released`, the level that the release curve gives for
    /// [`Meter::value`] and [`Meter::peak`]. A release that is no number, is
    /// negative or lies above the level is not taken: the level then stays.
    pub fn process(&mut self, released: u32)
        ensures
            final(self)@ == old(self)@.processed(released),
    {
        let max = self.peak();
        if is_greater(max, self.current_value) {
            self.current_value = max;
            self.since_peak = 0;
        } else if released <= INFINITY_BITS && !is_greater(released, self.current_value) {
            self.current_value = released;
        }
    }

    /// The level, as the bits of a single-precision number.
    pub fn value(&self) -> (value: u32)
        ensures
            value == self@.value,
    {
        self.current_value
    }

    /// The samples of time that went by since the level last jumped to a
    /// peak.
    pub fn since_peak(&self) -> (samples: u64)
        ensures
            samples == self@.since_peak,
    {
        self.since_peak
    }
}

impl StereoMeter {
    /// The view of the meter of the left channel.
    pub closed spec fn left(self) -> MeterView {
        self.left@
    }

    /// The view of the meter of the right channel.
    pub closed spec fn right(self) -> MeterView {
        self.right@
    }

    /// Two meters at rest.
    pub fn new() -> (meter: Self)
        ensures
            meter.left().window_size == DEFAULT_WINDOW_SIZE,
            meter.right().window_size == DEFAULT_WINDOW_SIZE,
            meter.left().value == 0,
            meter.right().value == 0,
            meter.left().since_peak == 0,
            meter.right().since_peak == 0,
            meter.left().window == Seq::<u32>::empty(),
            meter.right().window == Seq::<u32>::empty(),
    {
        StereoMeter { left: Meter::new(), right: Meter::new() }
    }

    /// Takes interleaved stereo audio into the windows, each channel into
    /// its own.
    pub fn write(&mut self, buf: &[u8])
        ensures
            final(self).left() == old(self).left().written(channel_bytes(buf@, 0)),
            final(self).right() == old(self).right().written(channel_bytes(buf@, 1)),
    {
        let left = deinterleave(buf, false);
        let right = deinterleave(buf, true);
        self.left.write(left.as_slice());
        self.right.write(right.as_slice());
    }

    /// Moves both levels one step.
    pub fn process(&mut self, released_left: u32, released_right: u32)
        ensures
            final(self).left() == old(self).left().processed(released_left),
            final(self).right() == old(self).right().processed(released_right),
    {
        self.left.process(released_left);
        self.right.process(released_right);
    }

    /// Slides both windows on by `amount` samples of silence.
    pub fn drain(&mut self, amount: usize)
        ensures
            final(self).left() == old(self).left().drained(amount as nat),
            final(self).right() == old(self).right().drained(amount as nat),
    {
        self.left.drain(amount);
        self.right.drain(amount);
    }

    /// The peaks of the two windows.
    pub fn peak(&self) -> (peaks: (u32, u32))
        ensures
            peaks.0 == peak(self.left().window),
            peaks.1 == peak(self.right().window),
    {
        (self.left.peak(), self.right.peak())
    }

    /// The two levels, as the bits of single-precision numbers.
    pub fn value(&self) -> (values: (u32, u32))
        ensures
            values.0 == self.left().value,
            values.1 == self.right().value,
    {
        (self.left.value(), self.right.value())
    }

    /// The samples of time since each level last jumped to a peak.
    pub fn since_peak(&self) -> (samples: (u64, u64))
        ensures
            samples.0 == self.left().since_peak,
            samples.1 == self.right().since_peak,
    {
        (self.left.since_peak(), self.right.since_peak())
    }
}

impl Default for StereoMeter {
    fn default() -> (meter: Self)
        ensures
            meter.left().value == 0,
            meter.right().value == 0,
            meter.left().window == Seq::<u32>::empty(),
            meter.right().window == Seq::<u32>::empty(),
    {
        StereoMeter::new()
    }
}

} // verus!
