use pulseshitter::kind::{BrowserKind, SourceKind};
use pulseshitter::sink_input::{Property, SinkInput};
use pulseshitter::source::{
    Source, SourceComparison, MAX_LIFESPAN, SIMILARITY_CEILING, SIMILARITY_ONE,
    SIMILARITY_THRESHOLD,
};

fn prop(key: &str, value: &str) -> Property {
    Property { key: key.to_string(), value: value.to_string() }
}

fn sink_input(name: &str, index: u32, props: Vec<Property>) -> SinkInput {
    SinkInput { name: name.to_string(), index, sink: 0, volume: 1.0f32.to_bits(), props }
}

fn of_app(name: &str, index: u32, app: &str) -> Source {
    Source::from_sink_input(
        sink_input(name, index, vec![prop("application.process.binary", app)]),
        u64::from(index),
        0,
    )
}

#[test]
fn metadata_is_looked_up_by_key() {
    let raw = sink_input(
        "x",
        1,
        vec![prop("media.name", "First"), prop("node.name", "Node"), prop("media.name", "Second")],
    );
    assert_eq!(raw.get_str("media.name"), Some("First".to_string()));
    assert_eq!(raw.get_str("node.name"), Some("Node".to_string()));
    assert_eq!(raw.get_str("application.name"), None);
    assert_eq!(raw.get_str(""), None);
}

#[test]
fn sink_input_clone_keeps_everything() {
    let raw = SinkInput {
        name: "Name".to_string(),
        index: 3,
        sink: 4,
        volume: 0.5f32.to_bits(),
        props: vec![prop("a", "b")],
    };
    let copy = raw.clone();
    assert_eq!(copy.name, "Name");
    assert_eq!(copy.index, 3);
    assert_eq!(copy.sink, 4);
    assert_eq!(f32::from_bits(copy.volume), 0.5);
    assert_eq!(copy.get_str("a"), Some("b".to_string()));
}

#[test]
fn source_takes_the_best_name_and_the_binary() {
    let raw = SinkInput {
        name: "playStream".to_string(),
        index: 12,
        sink: 3,
        volume: 0.75f32.to_bits(),
        props: vec![
            prop("application.name", "Music Player Daemon"),
            prop("application.process.binary", "mpd"),
            prop("media.name", "A Song"),
        ],
    };
    let source = Source::from_sink_input(raw, 5, 1234);
    assert_eq!(source.name(), "Music Player Daemon");
    assert_eq!(source.application(), "mpd");
    assert_eq!(source.kind(), SourceKind::Standalone);
    assert_eq!(source.id(), 5);
    assert_eq!(source.index(), 12);
    assert_eq!(source.sink_input().sink, 3);
    assert_eq!(source.age(), 1234);
    assert!(source.available());
    assert_eq!(f32::from_bits(source.volume()), 0.75);
}

#[test]
fn source_of_a_browser_takes_the_tab_name() {
    let raw = sink_input(
        "AudioStream",
        1,
        vec![
            prop("application.name", "Firefox"),
            prop("application.process.binary", "firefox"),
            prop("media.name", "My Cool Song"),
        ],
    );
    let source = Source::from_sink_input(raw, 0, 0);
    assert_eq!(source.kind(), SourceKind::BrowserTab(BrowserKind::Firefox));
    assert_eq!(source.name(), "My Cool Song");
    assert_eq!(source.application(), "firefox");
}

#[test]
fn source_without_metadata_goes_by_the_name_of_its_sink_input() {
    let source = Source::from_sink_input(sink_input("VLC", 3, vec![]), 0, 0);
    assert_eq!(source.name(), "VLC");
    assert_eq!(source.application(), "Unknown app");
    assert_eq!(source.kind(), SourceKind::Standalone);
    let vague = Source::from_sink_input(sink_input("audio stream", 1, vec![]), 0, 0);
    assert_eq!(vague.name(), "audio stream");
    let browser = Source::from_sink_input(sink_input("firefox", 1, vec![]), 0, 0);
    assert_eq!(browser.kind(), SourceKind::BrowserTab(BrowserKind::Firefox));
    assert_eq!(browser.name(), "Unidentifiable Firefox Tab");
}

#[test]
fn weak_candidate_loses_to_a_better_one() {
    let source = Source::from_sink_input(
        sink_input("VLC", 3, vec![prop("application.process.binary", "vlc")]),
        0,
        0,
    );
    // "vlc" scores one for its word, "VLC" nothing.
    assert_eq!(source.name(), "vlc");
    assert_eq!(source.application(), "vlc");
}

#[test]
fn application_falls_back_on_its_name() {
    let named = Source::from_sink_input(
        sink_input("x", 1, vec![prop("application.name", "Some App")]),
        0,
        0,
    );
    assert_eq!(named.application(), "Some App");
    assert_eq!(named.name(), "Some App");
}

#[test]
fn comparison_is_exact_on_same_index_or_same_name() {
    let a = of_app("Foo", 1, "app");
    let same_index = of_app("Something Else", 1, "other");
    let same_name = of_app("Foo", 2, "other");
    assert_eq!(a.compare(&same_index), SourceComparison::Exact);
    assert_eq!(a.compare(&same_name), SourceComparison::Exact);
}

#[test]
fn comparison_is_unrelated_across_applications() {
    let a = of_app("Foo", 1, "app");
    let b = of_app("Foo Bar", 2, "other");
    assert_eq!(a.compare(&b), SourceComparison::Unrelated);
    assert!(!a.compare(&b).is_similar_enough());
}

#[test]
fn comparison_within_an_application_is_the_jaro_similarity() {
    let a = of_app("Foo", 1, "app");
    let b = of_app("Foo Bar", 2, "app");
    match a.compare(&b) {
        SourceComparison::Partial(bits) => {
            assert!(bits <= SIMILARITY_ONE);
            let score = f64::from_bits(bits);
            assert!((score - 0.8095238095238096).abs() < 1e-12, "{}", score);
        }
        other => panic!("{:?}", other),
    }
    assert!(a.compare(&b).is_similar_enough());
    let far = of_app("Zzz Qqq", 3, "app");
    match a.compare(&far) {
        SourceComparison::Partial(bits) => assert_eq!(f64::from_bits(bits), 0.0),
        other => panic!("{:?}", other),
    }
    assert!(!a.compare(&far).is_similar_enough());
}

#[test]
fn threshold_is_three_tenths() {
    assert_eq!(SIMILARITY_THRESHOLD, 0.3f64.to_bits());
    assert_eq!(SIMILARITY_CEILING, f64::INFINITY.to_bits());
    assert_eq!(SIMILARITY_ONE, 1.0f64.to_bits());
}

#[test]
fn similar_enough_is_strictly_above_the_threshold() {
    let partial = |score: f64| SourceComparison::Partial(score.to_bits()).is_similar_enough();
    assert!(!partial(0.3));
    assert!(partial(0.30000000000000004));
    assert!(partial(0.5));
    assert!(partial(1.0));
    assert!(partial(f64::INFINITY));
    assert!(!partial(0.0));
    assert!(!partial(0.29));
    assert!(!partial(-0.5));
    assert!(!partial(-0.0));
    assert!(!partial(f64::NAN));
    assert!(!partial(f64::NEG_INFINITY));
    assert!(SourceComparison::Exact.is_similar_enough());
    assert!(!SourceComparison::Unrelated.is_similar_enough());
}

#[test]
fn similar_enough_agrees_with_the_comparison_of_numbers() {
    let mut bits: u64 = 0;
    for step in 0..4096u64 {
        bits = bits.wrapping_add(0x0010_4000_0000_1003u64.wrapping_mul(step + 1));
        let score = f64::from_bits(bits);
        assert_eq!(SourceComparison::Partial(bits).is_similar_enough(), score > 0.3, "{}", score);
    }
}

#[test]
fn update_takes_name_sink_input_and_volume() {
    let mut old = of_app("Foo", 1, "app");
    old.remove();
    let mut raw = sink_input("Foo Bar", 9, vec![prop("application.process.binary", "other")]);
    raw.sink = 7;
    raw.volume = 0.25f32.to_bits();
    let new = Source::from_sink_input(raw, 99, 50);
    old.update(&new, 77);
    assert_eq!(old.id(), 1);
    assert_eq!(old.application(), "app");
    assert_eq!(old.name(), "Foo Bar");
    assert_eq!(old.index(), 9);
    assert_eq!(old.sink_input().sink, 7);
    assert_eq!(f32::from_bits(old.volume()), 0.25);
    assert_eq!(old.age(), 77);
    assert!(old.available());
}

#[test]
fn a_source_dies_a_lifespan_after_it_went() {
    assert_eq!(MAX_LIFESPAN, 60_000);
    let mut source = of_app("Foo", 1, "app");
    assert!(!source.is_dead(0));
    assert!(!source.is_dead(u64::MAX));
    source.remove();
    assert!(!source.available());
    assert!(!source.is_dead(0));
    assert!(!source.is_dead(59_999));
    assert!(source.is_dead(60_000));
    assert!(source.is_dead(u64::MAX));
    let mut late = Source::from_sink_input(sink_input("Foo", 1, vec![]), 0, 1_000);
    late.remove();
    assert!(!late.is_dead(0));
    assert!(!late.is_dead(60_999));
    assert!(late.is_dead(61_000));
}

#[test]
fn source_clone_keeps_everything() {
    let source = of_app("Foo Bar", 4, "app");
    let copy = source.clone();
    assert_eq!(copy.id(), source.id());
    assert_eq!(copy.name(), source.name());
    assert_eq!(copy.application(), source.application());
    assert_eq!(copy.index(), source.index());
    assert_eq!(copy.kind(), source.kind());
    assert_eq!(copy.age(), source.age());
    assert_eq!(copy.volume(), source.volume());
    assert_eq!(copy.available(), source.available());
}
