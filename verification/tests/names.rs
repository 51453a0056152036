use pulseshitter::kind::{rank_candidates, BrowserKind, SourceKind};
use pulseshitter::name::{
    calculate_name_quality, checked_name_quality, is_all_lowercase, is_all_uppercase, is_vague,
    score_words, str_is_doublecase,
};
use pulseshitter::text::eq_ignore_case;

fn strings(items: &[&str]) -> Vec<String> {
    items.iter().map(|s| s.to_string()).collect()
}

#[test]
fn doublecase_needs_mixed_case_or_other_characters() {
    assert!(str_is_doublecase("playStream"));
    assert!(str_is_doublecase("My Cool Song"));
    assert!(str_is_doublecase("ALSA Playback"));
    assert!(str_is_doublecase("my song"));
    assert!(str_is_doublecase("123"));
    assert!(!str_is_doublecase("firefox"));
    assert!(!str_is_doublecase("ALSA"));
    assert!(!str_is_doublecase(""));
    assert!(!str_is_doublecase("é"));
}

#[test]
fn all_lowercase_and_all_uppercase_look_at_every_character() {
    assert!(is_all_lowercase("vlc"));
    assert!(!is_all_lowercase("vLc"));
    assert!(!is_all_lowercase("v c"));
    assert!(is_all_lowercase(""));
    assert!(is_all_uppercase("VLC"));
    assert!(!is_all_uppercase("VLc"));
    assert!(is_all_uppercase(""));
}

#[test]
fn comparison_ignores_case() {
    assert!(eq_ignore_case("Spotify", "SPOTIFY"));
    assert!(eq_ignore_case("firefox", "Firefox"));
    assert!(!eq_ignore_case("firefox", "chrome"));
    assert!(eq_ignore_case("straße", "STRASSE"));
}

#[test]
fn vague_words_are_matched_whatever_their_case() {
    for word in [
        "play", "audio", "voice", "stream", "driver", "webrtc", "engine", "playback", "callback",
        "alsa",
    ] {
        assert!(is_vague(word), "{}", word);
        assert!(is_vague(&word.to_uppercase()), "{}", word);
    }
    assert!(is_vague("Stream"));
    assert!(!is_vague("player"));
    assert!(!is_vague("Firefox"));
    assert!(!is_vague(""));
}

#[test]
fn words_score_plus_one_or_minus_one() {
    assert_eq!(score_words(&strings(&[])), 0);
    assert_eq!(score_words(&strings(&["My", "Cool", "Song"])), 3);
    assert_eq!(score_words(&strings(&["play", "Stream"])), -2);
    assert_eq!(score_words(&strings(&["ALSA", "Plugin"])), 0);
}

#[test]
fn quality_of_known_names() {
    assert_eq!(calculate_name_quality("playStream"), -1);
    assert_eq!(calculate_name_quality("Firefox"), 2);
    assert_eq!(calculate_name_quality("My Cool Song"), 4);
    assert_eq!(calculate_name_quality("ALSA Playback"), 0);
    assert_eq!(calculate_name_quality("firefox"), 1);
    assert_eq!(calculate_name_quality("ALSA"), 0);
    assert_eq!(calculate_name_quality(""), 0);
    assert_eq!(calculate_name_quality("audio-stream"), -1);
    assert_eq!(calculate_name_quality("VLC media player"), 3);
}

#[test]
fn checked_quality_agrees_with_quality() {
    for name in ["playStream", "Firefox", "My Cool Song", "", "a.b,c-d_e f"] {
        assert_eq!(checked_name_quality(name), Some(calculate_name_quality(name)));
    }
}

#[test]
fn words_are_cut_at_separators_and_capitals() {
    // Five words of one letter each, none of them vague, in a name that is
    // double-case for its separators.
    assert_eq!(calculate_name_quality("a.b,c-d_e"), 6);
    // A capital starts a word only where lower-case letters follow it.
    assert_eq!(calculate_name_quality("PlayBack"), 1);
}

#[test]
fn vague_candidates_lose() {
    let ranked = rank_candidates(&strings(&["playStream", "Firefox", "My Cool Song"]));
    assert_eq!(ranked, strings(&["My Cool Song", "Firefox", "playStream"]));
    let kind = SourceKind::parse(&ranked);
    assert_eq!(kind, SourceKind::BrowserTab(BrowserKind::Firefox));
    assert_eq!(kind.determine_name(&ranked), "My Cool Song");
}

#[test]
fn candidates_of_one_quality_keep_their_order() {
    let ranked = rank_candidates(&strings(&["Beta Two", "alpha", "Alpha One", "Gamma Three Four"]));
    assert_eq!(ranked, strings(&["Gamma Three Four", "Beta Two", "Alpha One", "alpha"]));
}

#[test]
fn candidates_that_say_little_stay_in_the_list() {
    assert_eq!(
        rank_candidates(&strings(&["audio stream", "VLC", "vlc"])),
        strings(&["vlc", "VLC", "audio stream"])
    );
    assert_eq!(rank_candidates(&strings(&["VLC"])), strings(&["VLC"]));
    assert_eq!(rank_candidates(&strings(&["playStream"])), strings(&["playStream"]));
    assert_eq!(rank_candidates(&strings(&[])), strings(&[]));
}

#[test]
fn lone_candidate_is_the_name() {
    let ranked = rank_candidates(&strings(&["VLC"]));
    assert_eq!(SourceKind::parse(&ranked).determine_name(&ranked), "VLC");
}

#[test]
fn browsers_are_recognised_by_name() {
    assert_eq!(BrowserKind::parse("Firefox"), Some(BrowserKind::Firefox));
    assert_eq!(BrowserKind::parse("firefox"), Some(BrowserKind::Firefox));
    assert_eq!(BrowserKind::parse("CHROME"), Some(BrowserKind::Chrome));
    assert_eq!(BrowserKind::parse("Chromium"), None);
    assert_eq!(BrowserKind::parse(""), None);
    assert_eq!(BrowserKind::Firefox.to_string(), "Firefox");
    assert_eq!(BrowserKind::Chrome.to_string(), "Chrome");
    assert_eq!(SourceKind::from(BrowserKind::Chrome), SourceKind::BrowserTab(BrowserKind::Chrome));
}

#[test]
fn kind_is_that_of_the_first_browser_named() {
    assert_eq!(SourceKind::parse(&strings(&[])), SourceKind::Standalone);
    assert_eq!(SourceKind::parse(&strings(&["Some Player"])), SourceKind::Standalone);
    assert_eq!(
        SourceKind::parse(&strings(&["A Video", "chrome", "Firefox"])),
        SourceKind::BrowserTab(BrowserKind::Chrome)
    );
}

#[test]
fn tab_name_is_the_first_candidate_that_is_not_the_browser() {
    let firefox = BrowserKind::Firefox;
    assert_eq!(firefox.determine_tab_name(&strings(&["Firefox", "A Video"])), "A Video");
    assert_eq!(firefox.determine_tab_name(&strings(&["FIREFOX", "firefox"])), "Unidentifiable Firefox Tab");
    assert_eq!(BrowserKind::Chrome.determine_tab_name(&strings(&[])), "Unidentifiable Chrome Tab");
    assert_eq!(firefox.determine_tab_name(&strings(&["Chrome"])), "Chrome");
}

#[test]
fn standalone_name_is_the_best_candidate() {
    let kind = SourceKind::Standalone;
    assert_eq!(kind.determine_name(&strings(&["Best Name", "Other Name"])), "Best Name");
    assert_eq!(kind.determine_name(&strings(&[])), "Unidentifiable audio source");
    let tab = SourceKind::BrowserTab(BrowserKind::Firefox);
    assert_eq!(tab.determine_name(&strings(&["Firefox"])), "Unidentifiable Firefox Tab");
}
