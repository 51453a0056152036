use pulseshitter::meter::{
    deinterleave, faster_max, is_greater, raw_samples_from_bytes, Meter, StereoMeter,
    DEFAULT_WINDOW_SIZE,
};

fn bytes_of(samples: &[f32]) -> Vec<u8> {
    samples.iter().flat_map(|s| s.to_le_bytes()).collect()
}

fn bits(value: f32) -> u32 {
    value.to_bits()
}

#[test]
fn samples_are_read_lowest_byte_first() {
    assert_eq!(raw_samples_from_bytes(&[0x78, 0x56, 0x34, 0x12]), vec![0x1234_5678]);
    assert_eq!(raw_samples_from_bytes(&[0xff, 0xff, 0xff, 0xff]), vec![u32::MAX]);
    assert_eq!(raw_samples_from_bytes(&[]), Vec::<u32>::new());
    assert_eq!(raw_samples_from_bytes(&[1, 2, 3]), Vec::<u32>::new());
    assert_eq!(raw_samples_from_bytes(&[1, 0, 0, 0, 2, 0, 0, 0, 9]), vec![1, 2]);
}

#[test]
fn samples_are_the_numbers_that_were_written() {
    let values = [0.0f32, 1.0, -1.0, 0.5, -0.25, 1e-40, f32::MAX];
    let read = raw_samples_from_bytes(&bytes_of(&values));
    assert_eq!(read.len(), values.len());
    for (sample, value) in read.iter().zip(values) {
        assert_eq!(f32::from_bits(*sample), value);
    }
}

#[test]
fn channels_are_taken_apart() {
    let bytes: Vec<u8> = (0u8..20).collect();
    assert_eq!(deinterleave(&bytes, false), vec![0, 1, 2, 3, 8, 9, 10, 11]);
    assert_eq!(deinterleave(&bytes, true), vec![4, 5, 6, 7, 12, 13, 14, 15]);
    assert_eq!(deinterleave(&bytes[..7], false), Vec::<u8>::new());
}

#[test]
fn greater_is_the_comparison_of_numbers() {
    let values = [
        0.0f32,
        -0.0,
        1.0,
        -1.0,
        0.5,
        -0.5,
        f32::MIN_POSITIVE,
        -f32::MIN_POSITIVE,
        1e-45,
        -1e-45,
        f32::MAX,
        f32::MIN,
        f32::INFINITY,
        f32::NEG_INFINITY,
        f32::NAN,
        -f32::NAN,
        f32::from_bits(0x7F80_0001),
        f32::from_bits(0xFFFF_FFFF),
    ];
    for a in values {
        for b in values {
            assert_eq!(is_greater(bits(a), bits(b)), a > b, "{} > {}", a, b);
            let max = if a > b { a } else { b };
            assert_eq!(faster_max(bits(a), bits(b)), bits(max), "max of {} and {}", a, b);
        }
    }
}

#[test]
fn new_meter_is_at_rest() {
    let meter = Meter::new();
    assert_eq!(meter.value(), 0);
    assert_eq!(meter.peak(), 0);
    assert_eq!(DEFAULT_WINDOW_SIZE, 48000 / 24);
}

#[test]
fn peak_is_the_largest_magnitude() {
    let mut meter = Meter::new();
    meter.write(&bytes_of(&[0.1, -0.7, 0.3, -0.0]));
    assert_eq!(f32::from_bits(meter.peak()), 0.7);
}

#[test]
fn peak_forgets_what_is_no_number_at_the_next_sample() {
    let mut meter = Meter::new();
    meter.write(&bytes_of(&[0.9, f32::NAN, 0.2]));
    assert_eq!(f32::from_bits(meter.peak()), 0.2);
    meter.write(&bytes_of(&[f32::NAN]));
    assert!(f32::from_bits(meter.peak()).is_nan());
}

#[test]
fn window_keeps_the_newest_samples() {
    let mut meter = Meter::new();
    let loud = vec![0.9f32; 10];
    meter.write(&bytes_of(&loud));
    assert_eq!(f32::from_bits(meter.peak()), 0.9);
    let quiet = vec![0.1f32; DEFAULT_WINDOW_SIZE - 1];
    meter.write(&bytes_of(&quiet));
    assert_eq!(f32::from_bits(meter.peak()), 0.9);
    meter.write(&bytes_of(&[0.1]));
    assert_eq!(f32::from_bits(meter.peak()), 0.1);
}

#[test]
fn window_takes_the_end_of_a_long_write() {
    let mut meter = Meter::new();
    let mut long = vec![0.9f32; 5];
    long.extend(vec![0.2f32; DEFAULT_WINDOW_SIZE]);
    meter.write(&bytes_of(&long));
    assert_eq!(f32::from_bits(meter.peak()), 0.2);
}

#[test]
fn drain_pushes_the_oldest_samples_out() {
    let mut meter = Meter::new();
    meter.write(&bytes_of(&[0.9, 0.5, 0.3]));
    meter.drain(1);
    assert_eq!(f32::from_bits(meter.peak()), 0.5);
    meter.drain(1);
    assert_eq!(f32::from_bits(meter.peak()), 0.3);
    meter.drain(5);
    assert_eq!(meter.peak(), 0);
    meter.drain(0);
    assert_eq!(meter.peak(), 0);
}

#[test]
fn level_jumps_to_a_higher_peak_and_falls_to_the_release() {
    let mut meter = Meter::new();
    meter.write(&bytes_of(&[0.5]));
    meter.process(bits(0.0));
    assert_eq!(f32::from_bits(meter.value()), 0.5);
    // The peak is not above the level: the level falls to what is given.
    meter.process(bits(0.45));
    assert_eq!(f32::from_bits(meter.value()), 0.45);
    // Now the peak is above the level again.
    meter.process(bits(0.4));
    assert_eq!(f32::from_bits(meter.value()), 0.5);
    meter.write(&bytes_of(&[-0.8]));
    meter.process(bits(0.1));
    assert_eq!(f32::from_bits(meter.value()), 0.8);
}

#[test]
fn time_since_the_peak_is_counted_in_samples() {
    let mut meter = Meter::new();
    assert_eq!(meter.since_peak(), 0);
    meter.write(&bytes_of(&[0.5]));
    meter.drain(0);
    meter.process(bits(0.0));
    assert_eq!(meter.since_peak(), 0);
    meter.drain(300);
    meter.process(bits(0.4));
    assert_eq!(meter.since_peak(), 300);
    meter.drain(33);
    assert_eq!(meter.since_peak(), 333);
    meter.write(&bytes_of(&[0.9]));
    assert_eq!(meter.since_peak(), 333);
    meter.process(bits(0.1));
    assert_eq!(meter.since_peak(), 0);
    meter.drain(usize::MAX);
    meter.drain(usize::MAX);
    assert_eq!(meter.since_peak(), u64::MAX);
}

#[test]
fn level_never_rises_but_to_a_peak() {
    let mut meter = Meter::new();
    // Nothing was heard: no release can lift the level off the ground.
    meter.process(bits(1.0));
    assert_eq!(meter.value(), 0);
    meter.process(bits(f32::NAN));
    assert_eq!(meter.value(), 0);
    meter.write(&bytes_of(&[0.5]));
    meter.process(bits(0.0));
    meter.drain(1);
    for refused in [0.6, 0.5000001, f32::INFINITY, -0.1, -0.0, f32::NAN, -f32::NAN, f32::NEG_INFINITY] {
        meter.process(bits(refused));
        assert_eq!(f32::from_bits(meter.value()), 0.5, "{}", refused);
    }
    meter.process(bits(0.5));
    assert_eq!(f32::from_bits(meter.value()), 0.5);
    meter.process(bits(0.25));
    assert_eq!(f32::from_bits(meter.value()), 0.25);
    meter.process(bits(0.0));
    assert_eq!(meter.value(), 0);
    assert_eq!(meter.since_peak(), 1);
}

#[test]
fn level_stays_within_the_samples() {
    let mut meter = Meter::new();
    let mut seed: u32 = 12345;
    for step in 0..400 {
        seed = seed.wrapping_mul(1_664_525).wrapping_add(1_013_904_223);
        let sample = (seed >> 8) as f32 / (1u32 << 24) as f32 * 2.0 - 1.0;
        meter.write(&bytes_of(&[sample]));
        seed = seed.wrapping_mul(1_664_525).wrapping_add(1_013_904_223);
        // Any bits at all may come as the release.
        meter.process(seed);
        let value = f32::from_bits(meter.value());
        assert!((0.0..=1.0).contains(&value), "step {}: {}", step, value);
        if step % 7 == 0 {
            meter.drain(3);
        }
    }
}

#[test]
fn level_falls_in_silence() {
    let mut meter = Meter::new();
    meter.write(&bytes_of(&[0.5]));
    meter.process(bits(0.0));
    meter.drain(1);
    let mut level = f32::from_bits(meter.value());
    for _ in 0..50 {
        meter.process(bits(level * 0.9));
        let next = f32::from_bits(meter.value());
        assert!(next <= level);
        assert!(next >= 0.0);
        level = next;
        meter.drain(1);
    }
    assert!(level < 0.01);
}

#[test]
fn stereo_meter_keeps_the_channels_apart() {
    let mut meter = StereoMeter::new();
    assert_eq!(meter.value(), (0, 0));
    meter.write(&bytes_of(&[0.25, -0.75, 0.5, 0.125]));
    let (left, right) = meter.peak();
    assert_eq!(f32::from_bits(left), 0.5);
    assert_eq!(f32::from_bits(right), 0.75);
    meter.process(bits(0.0), bits(0.0));
    let (left, right) = meter.value();
    assert_eq!(f32::from_bits(left), 0.5);
    assert_eq!(f32::from_bits(right), 0.75);
    meter.drain(2);
    assert_eq!(meter.peak(), (0, 0));
    meter.process(bits(0.4), bits(0.6));
    let (left, right) = meter.value();
    assert_eq!(f32::from_bits(left), 0.4);
    assert_eq!(f32::from_bits(right), 0.6);
    assert_eq!(meter.since_peak(), (2, 2));
    let rest = StereoMeter::default();
    assert_eq!(rest.value(), (0, 0));
    assert_eq!(rest.since_peak(), (0, 0));
}
