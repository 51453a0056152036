use pulseshitter::format::{
    BUFFER_SIZE, FRAGMENT_SIZE, FRAME_IN_BYTES, LATENCY_IN_MILLISECONDS, SAMPLE_IN_BYTES,
    SAMPLE_RATE,
};
use pulseshitter::stream::AudioStream;

#[test]
fn buffer_holds_the_frames_of_the_latency() {
    assert_eq!(FRAME_IN_BYTES, 2 * SAMPLE_IN_BYTES);
    assert_eq!(BUFFER_SIZE, FRAME_IN_BYTES * (SAMPLE_RATE * LATENCY_IN_MILLISECONDS / 1000));
    assert_eq!(BUFFER_SIZE, 19200);
    assert_eq!(FRAGMENT_SIZE as usize, BUFFER_SIZE / 2);
}

#[test]
fn new_stream_is_empty() {
    let mut stream = AudioStream::new();
    assert_eq!(stream.len(), 0);
    let written = stream.write(&vec![1u8; BUFFER_SIZE + 5]);
    assert_eq!(written, BUFFER_SIZE);
    assert_eq!(stream.len(), BUFFER_SIZE);
}

#[test]
fn read_returns_whole_frames_only() {
    for len in 0..40usize {
        let mut stream = AudioStream::with_capacity(64);
        stream.write(&[7u8; 64]);
        let mut buf = vec![3u8; len];
        let count = stream.read(&mut buf);
        assert_eq!(count % FRAME_IN_BYTES, 0);
        assert_eq!(count, len / 8 * 8);
        assert_eq!(stream.len(), 64 - count);
        assert!(buf[..count].iter().all(|b| *b == 7));
        assert!(buf[count..].iter().all(|b| *b == 3));
    }
}

#[test]
fn partial_frame_waits_for_its_rest() {
    let mut stream = AudioStream::with_capacity(64);
    assert_eq!(stream.write(&[1, 2, 3, 4, 5]), 5);
    let mut buf = [9u8; 20];
    assert_eq!(stream.read(&mut buf), 0);
    assert_eq!(buf, [9u8; 20]);
    assert_eq!(stream.len(), 5);
    assert_eq!(stream.write(&[6, 7, 8, 10, 11]), 5);
    assert_eq!(stream.read(&mut buf), 8);
    assert_eq!(&buf[..8], &[1, 2, 3, 4, 5, 6, 7, 8]);
    assert_eq!(&buf[8..], &[9u8; 12]);
    assert_eq!(stream.len(), 2);
}

#[test]
fn read_counts_only_what_was_waiting() {
    let mut stream = AudioStream::with_capacity(64);
    stream.write(&[5u8; 19]);
    let mut buf = [9u8; 40];
    assert_eq!(stream.read(&mut buf), 16);
    assert_eq!(&buf[..16], &[5u8; 16]);
    assert_eq!(&buf[16..], &[9u8; 24]);
    assert_eq!(stream.len(), 3);
}

#[test]
fn read_of_an_empty_stream_returns_nothing() {
    let mut stream = AudioStream::with_capacity(8);
    let mut buf = [3u8; 16];
    assert_eq!(stream.read(&mut buf), 0);
    assert_eq!(buf, [3u8; 16]);
    let mut small = [3u8; 7];
    assert_eq!(stream.read(&mut small), 0);
    assert_eq!(small, [3u8; 7]);
    let mut none: [u8; 0] = [];
    assert_eq!(stream.read(&mut none), 0);
}

#[test]
fn bytes_come_out_in_the_order_they_went_in() {
    let mut stream = AudioStream::with_capacity(16);
    assert_eq!(stream.write(&(0u8..12).collect::<Vec<u8>>()), 12);
    let mut buf = [0u8; 8];
    assert_eq!(stream.read(&mut buf), 8);
    assert_eq!(buf, [0, 1, 2, 3, 4, 5, 6, 7]);
    // The ring wraps round here.
    assert_eq!(stream.write(&(12u8..30).collect::<Vec<u8>>()), 12);
    assert_eq!(stream.len(), 16);
    let mut rest = [0u8; 16];
    assert_eq!(stream.read(&mut rest), 16);
    assert_eq!(rest.to_vec(), (8u8..24).collect::<Vec<u8>>());
}

#[test]
fn write_drops_what_does_not_fit() {
    let mut stream = AudioStream::with_capacity(4);
    assert_eq!(stream.write(&[1, 2, 3]), 3);
    assert_eq!(stream.write(&[4, 5, 6]), 1);
    assert_eq!(stream.write(&[7]), 0);
    assert_eq!(stream.write(&[]), 0);
    assert_eq!(stream.len(), 4);
}

#[test]
fn clear_drops_what_waits() {
    let mut stream = AudioStream::with_capacity(32);
    stream.write(&[5u8; 20]);
    stream.clear();
    assert_eq!(stream.len(), 0);
    let mut buf = [4u8; 8];
    assert_eq!(stream.read(&mut buf), 0);
    assert_eq!(buf, [4u8; 8]);
    assert_eq!(stream.write(&[6u8; 40]), 32);
    assert_eq!(stream.len(), 32);
}
