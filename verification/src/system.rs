//! The audio system: one selector, one stream, one meter, and the rules
//! that tie them together.
//!
//! The system does no input or output. The thread that owns it hands it the
//! events of the audio server and carries out the command that it gets back:
//! to open a recording stream on a sink input, or to close the one it has.

use vstd::prelude::*;
use crate::format::BUFFER_SIZE;
use crate::meter::{channel_bytes, MeterView, StereoMeter, DEFAULT_WINDOW_SIZE};
use crate::selector::{
    enumerated, option_view, raw_views, views, Operation, SelectorError, SelectorView,
    SourceSelector,
};
use crate::sink_input::SinkInput;
use crate::source::{Source, SourceView};
use crate::status::SinkInputStreamStatus;
use crate::stream::{least, readable, AudioStream};

verus! {

/// The bits of 1.0 as a single-precision number: the volume that leaves a
/// signal as it is.
pub const UNITY_VOLUME: u32 = 0x3F80_0000;

/// The length of the chunk of silence that the meter is fed while nothing
/// is captured: eight frames.
pub const SILENCE_IN_BYTES: usize = 64;

/// What the owner of the system has to do with its recording stream.
#[derive(Debug, Clone, Copy, PartialEq, Eq, Structural)]
pub enum StreamCommand {
    /// Leave the stream as it is.
    Keep,
    /// Drop the stream, if there is one, and open one on this sink input.
    Open { index: u32, sink: u32 },
    /// Drop the stream, if there is one.
    Close,
}

/// Manages everything about the audio.
pub struct AudioSystem {
    selector: SourceSelector,
    stream: AudioStream,
    meter: StereoMeter,
}

/// What an audio system holds, as plain values.
pub struct SystemView {
    pub selector: SelectorView,
    /// The audio that waits to be read.
    pub buffered: Seq<u8>,
    /// The number of bytes that can wait at most.
    pub capacity: nat,
    pub left: MeterView,
    pub right: MeterView,
}

/// The stream that fits a current source: one on its sink input, or none.
pub open spec fn stream_for(current: Option<SourceView>) -> StreamCommand {
    match current {
        Some(s) => StreamCommand::Open { index: s.index(), sink: s.sink_input.sink },
        None => StreamCommand::Close,
    }
}

/// The sink input index of a source that may be absent.
pub open spec fn index_of(current: Option<SourceView>) -> Option<u32> {
    match current {
        Some(s) => Some(s.index()),
        None => None,
    }
}

/// What to do with the stream after the current source went from `before`
/// to `after`: nothing while it stays on one sink input.
pub open spec fn stream_after(before: Option<SourceView>, after: Option<SourceView>) -> StreamCommand {
    if index_of(before) == index_of(after) {
        StreamCommand::Keep
    } else {
        stream_for(after)
    }
}

/// A chunk of silence.
pub open spec fn silent_bytes() -> Seq<u8> {
    Seq::new(SILENCE_IN_BYTES as nat, |i: int| 0u8)
}

impl SystemView {
    /// The system after a chunk of captured, normalised audio arrived: while
    /// a source is captured the chunk enters the stream, as far as it fits,
    /// and the meter; else the meter is fed silence, so that it falls.
    pub open spec fn heard(self, bytes: Seq<u8>) -> SystemView {
        if self.selector.current() is Some {
            let pushed = least(bytes.len() as int, self.capacity - self.buffered.len());
            SystemView {
                buffered: self.buffered + bytes.take(pushed),
                left: self.left.written(channel_bytes(bytes, 0)),
                right: self.right.written(channel_bytes(bytes, 1)),
                ..self
            }
        } else {
            SystemView {
                left: self.left.written(channel_bytes(silent_bytes(), 0)),
                right: self.right.written(channel_bytes(silent_bytes(), 1)),
                ..self
            }
        }
    }
}

impl View for AudioSystem {
    type V = SystemView;

    closed spec fn view(&self) -> SystemView {
        SystemView {
            selector: self.selector@,
            buffered: self.stream.contents(),
            capacity: self.stream.capacity(),
            left: self.meter.left(),
            right: self.meter.right(),
        }
    }
}

/// Makes a chunk of silence.
fn silent_chunk() -> (chunk: Vec<u8>)
    ensures
        chunk@ == silent_bytes(),
{
    let mut chunk: Vec<u8> = Vec::new();
    let mut i: usize = 0;
    while i < SILENCE_IN_BYTES
        invariant
            i <= SILENCE_IN_BYTES,
            chunk.len() == i,
            forall|k: int| 0 <= k < i ==> #[trigger] chunk@[k] == 0,
        decreases SILENCE_IN_BYTES - i,
    {
        chunk.push(0);
        i = i + 1;
    }
    proof {
        assert(chunk@ =~= silent_bytes());
    }
    chunk
}

impl AudioSystem {
    /// Sets the system up from a first enumeration, taken at `now`: nothing
    /// is selected, nothing is buffered, the meter is at rest.
    pub fn new(sink_inputs: &Vec<SinkInput>, allow_spotify: bool, now: u64) -> (system: Self)
        ensures
            system@.selector.wf(),
            system@.selector.catalog == enumerated(raw_views(sink_inputs@), 0, now),
            system@.selector.selected is None,
            system@.selector.allow_spotify == allow_spotify,
            system@.buffered == Seq::<u8>::empty(),
            system@.capacity == BUFFER_SIZE,
            system@.left.window == Seq::<u32>::empty(),
            system@.right.window == Seq::<u32>::empty(),
            system@.left.value == 0,
            system@.right.value == 0,
            system@.left.since_peak == 0,
            system@.right.since_peak == 0,
            system@.left.window_size == DEFAULT_WINDOW_SIZE,
            system@.right.window_size == DEFAULT_WINDOW_SIZE,
    {
        AudioSystem {
            selector: SourceSelector::new(sink_inputs, allow_spotify, now),
            stream: AudioStream::new(),
            meter: StereoMeter::new(),
        }
    }

    /// Selects a source, or clears the selection, and says which stream now
    /// fits: one on the selected source if it is available, else none.
    pub fn select(&mut self, source: Option<Source>) -> (command: StreamCommand)
        requires
            old(self)@.selector.wf(),
        ensures
            final(self)@.selector.wf(),
            final(self)@ == (SystemView {
                selector: old(self)@.selector.select(option_view(source)),
                ..old(self)@
            }),
            command == stream_for(final(self)@.selector.current()),
    {
        self.selector.select(source);
        self.refresh_stream()
    }

    /// Says which stream fits the current source.
    pub fn refresh_stream(&self) -> (command: StreamCommand)
        ensures
            command == stream_for(self@.selector.current()),
    {
        match self.selector.current_source() {
            Some(source) => {
                let raw = source.sink_input();
                StreamCommand::Open { index: raw.index, sink: raw.sink }
            },
            None => StreamCommand::Close,
        }
    }

    /// Lists the sources that are neither dead at `now` nor filtered out, the
    /// most recently updated first.
    pub fn sources(&self, now: u64) -> (listed: Vec<Source>)
        ensures
            views(listed@) == self@.selector.listed(now),
    {
        self.selector.sources(now)
    }

    /// The source that is being captured.
    pub fn current_source(&self) -> (current: Option<Source>)
        ensures
            option_view(current) == self@.selector.current(),
    {
        self.selector.current_source()
    }

    /// The source the user asked for.
    pub fn selected_source(&self) -> (selected: Option<Source>)
        ensures
            option_view(selected) == self@.selector.selected,
    {
        self.selector.selected_source()
    }

    /// Applies an event of the audio server about the sink input `index`,
    /// given the enumeration taken at `now`, and says what to do with the
    /// stream: it is replaced exactly when the current source has moved to
    /// another sink input, appeared or gone.
    pub fn handle_sink_input_event(
        &mut self,
        index: u32,
        operation: Operation,
        sink_inputs: &Vec<SinkInput>,
        now: u64,
    ) -> (result: Result<StreamCommand, SelectorError>)
        requires
            old(self)@.selector.wf(),
        ensures
            final(self)@.selector.wf(),
            match old(self)@.selector.handled(index, operation, raw_views(sink_inputs@), now) {
                Ok(next) => {
                    &&& final(self)@ == (SystemView { selector: next, ..old(self)@ })
                    &&& result == Ok::<StreamCommand, SelectorError>(
                        stream_after(old(self)@.selector.current(), next.current()),
                    )
                },
                Err(reason) => {
                    &&& final(self)@ == old(self)@
                    &&& result == Err::<StreamCommand, SelectorError>(reason)
                },
            },
    {
        let before = match self.selector.current_source() {
            Some(s) => Some(s.index()),
            None => None,
        };
        match self.selector.handle_sink_input_event(index, operation, sink_inputs, now) {
            Ok(()) => {},
            Err(reason) => {
                return Err(reason);
            },
        }
        let after = match self.selector.current_source() {
            Some(s) => Some(s.index()),
            None => None,
        };
        if before == after {
            Ok(StreamCommand::Keep)
        } else {
            Ok(self.refresh_stream())
        }
    }

    /// The volume to normalise captured audio by: the last measured volume
    /// of the current source, or unity while nothing is captured.
    pub fn normalization_volume(&self) -> (volume: u32)
        ensures
            volume == match self@.selector.current() {
                Some(s) => s.volume,
                None => UNITY_VOLUME,
            },
    {
        match self.selector.current_source() {
            Some(s) => s.volume(),
            None => UNITY_VOLUME,
        }
    }

    /// Takes a chunk of captured audio that was normalised by
    /// [`AudioSystem::normalization_volume`], and tells how many bytes of it
    /// entered the stream.
    pub fn handle_audio(&mut self, bytes: &[u8]) -> (pushed: usize)
        ensures
            final(self)@ == old(self)@.heard(bytes@),
            pushed == final(self)@.buffered.len() - old(self)@.buffered.len(),
            final(self)@.buffered.len() <= final(self)@.capacity,
    {
        match self.selector.current_source() {
            Some(_) => {
                let pushed = self.stream.write(bytes);
                self.meter.write(bytes);
                pushed
            },
            None => {
                let _ = self.stream.len();
                let chunk = silent_chunk();
                self.meter.write(chunk.as_slice());
                0
            },
        }
    }

    /// Takes note of the status of the recording stream. A stream that timed
    /// out counts as the loss of its source: the selected source is marked
    /// as gone, to be found again when its application comes back, and the
    /// stream is to be closed. Any other status leaves everything as it is.
    pub fn handle_stream_status(&mut self, status: &SinkInputStreamStatus) -> (command: StreamCommand)
        requires
            old(self)@.selector.wf(),
        ensures
            final(self)@.selector.wf(),
            final(self)@ == (SystemView {
                selector: match (*status, old(self)@.selector.selected) {
                    (SinkInputStreamStatus::TimedOut, Some(s)) => old(self)@.selector.with_source(
                        s.removed(),
                    ),
                    _ => old(self)@.selector,
                },
                ..old(self)@
            }),
            command == if *status is TimedOut {
                StreamCommand::Close
            } else {
                StreamCommand::Keep
            },
    {
        match status {
            SinkInputStreamStatus::TimedOut => {
                self.selector.abandon_selected();
                StreamCommand::Close
            },
            _ => StreamCommand::Keep,
        }
    }

    /// Moves buffered audio into the front of `buf`, in whole frames only,
    /// and returns the number of bytes moved: zero while less than a frame
    /// waits. The bytes of `buf` beyond the count are left as they were.
    pub fn read(&mut self, buf: &mut [u8]) -> (count: usize)
        ensures
            count == readable(old(buf)@.len() as int, old(self)@.buffered.len() as int),
            count % 8 == 0,
            final(buf)@ == old(self)@.buffered.take(count as int) + old(buf)@.skip(count as int),
            final(self)@ == (SystemView {
                buffered: old(self)@.buffered.skip(count as int),
                ..old(self)@
            }),
            final(self)@.buffered.len() <= final(self)@.capacity,
    {
        self.stream.read(buf)
    }

    /// Drops the audio that waits to be read.
    pub fn clear(&mut self)
        ensures
            final(self)@ == (SystemView { buffered: Seq::<u8>::empty(), ..old(self)@ }),
            final(self)@.buffered.len() <= final(self)@.capacity,
    {
        self.stream.clear();
    }

    /// The levels of the two channels, as the bits of single-precision
    /// numbers.
    pub fn meter_value(&self) -> (values: (u32, u32))
        ensures
            values.0 == self@.left.value,
            values.1 == self@.right.value,
    {
        self.meter.value()
    }

    /// The samples of time since each level last jumped to a peak.
    pub fn meter_since_peak(&self) -> (samples: (u64, u64))
        ensures
            samples.0 == self@.left.since_peak,
            samples.1 == self@.right.since_peak,
    {
        self.meter.since_peak()
    }

    /// The peaks of the two meter windows.
    pub fn meter_peak(&self) -> (peaks: (u32, u32))
        ensures
            peaks.0 == crate::meter::peak(self@.left.window),
            peaks.1 == crate::meter::peak(self@.right.window),
    {
        self.meter.peak()
    }

    /// Moves both levels one step, up to the peak or down to the released
    /// levels given.
    pub fn process_meter(&mut self, released_left: u32, released_right: u32)
        ensures
            final(self)@ == (SystemView {
                left: old(self)@.left.processed(released_left),
                right: old(self)@.right.processed(released_right),
                ..old(self)@
            }),
    {
        self.meter.process(released_left, released_right);
    }

    /// Slides both meter windows on by `amount` samples of silence.
    pub fn drain_meter(&mut self, amount: usize)
        ensures
            final(self)@ == (SystemView {
                left: old(self)@.left.drained(amount as nat),
                right: old(self)@.right.drained(amount as nat),
                ..old(self)@
            }),
    {
        self.meter.drain(amount);
    }
}

} // verus!
