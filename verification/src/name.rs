//! Scoring of candidate names for an audio source.
//!
//! The metadata that an audio server hands out is often an internal
//! identifier ("playStream", "ALSA Playback"). A candidate is scored by its
//! letter case and by the words it is made of, so that the names a person
//! would recognise win.

use vstd::prelude::*;
use crate::text::{find_matches, lowercase_char, regex_matches, texts, uppercase, uppercase_char};

verus! {

/// The regular expression that cuts a name into words: a run of characters
/// without separators and capitals, or a capital followed by such a run.
pub const WORD_PATTERN: &'static str = r"([^.,\-_\sA-Z]+)|([^.,\-_\sa-z][^.\sA-Z]+)";

/// The largest number of words whose score still fits the result type once
/// the point for letter case is added.
pub const MAX_SCORED_WORDS: usize = 0x7fff_fffe;

/// Every character is a lower-case letter.
pub open spec fn all_lowercase(s: Seq<char>) -> bool {
    forall|i: int| 0 <= i < s.len() ==> lowercase_char(#[trigger] s[i])
}

/// Every character is an upper-case letter.
pub open spec fn all_uppercase(s: Seq<char>) -> bool {
    forall|i: int| 0 <= i < s.len() ==> uppercase_char(#[trigger] s[i])
}

/// A name is double-case when it is neither all lower case nor all upper case.
pub open spec fn doublecase(s: Seq<char>) -> bool {
    !all_lowercase(s) && !all_uppercase(s)
}

/// A word is vague when, ignoring case, it is one of the words that drivers
/// and audio engines use to name their streams.
pub open spec fn vague(word: Seq<char>) -> bool {
    let upper = uppercase(word);
    ||| upper == uppercase("play"@)
    ||| upper == uppercase("audio"@)
    ||| upper == uppercase("voice"@)
    ||| upper == uppercase("stream"@)
    ||| upper == uppercase("driver"@)
    ||| upper == uppercase("webrtc"@)
    ||| upper == uppercase("engine"@)
    ||| upper == uppercase("playback"@)
    ||| upper == uppercase("callback"@)
    ||| upper == uppercase("alsa"@)
}

/// What one word adds to the score of a name.
pub open spec fn word_value(word: Seq<char>) -> int {
    if vague(word) {
        -1
    } else {
        1
    }
}

/// The sum of the values of some words.
pub open spec fn words_score(words: Seq<Seq<char>>) -> int
    decreases words.len(),
{
    if words.len() == 0 {
        0
    } else {
        words_score(words.drop_last()) + word_value(words.last())
    }
}

/// The words of a name: the matches of [`WORD_PATTERN`] in it.
pub open spec fn name_words(s: Seq<char>) -> Seq<Seq<char>> {
    match regex_matches(WORD_PATTERN@, s) {
        Some(words) => words,
        None => Seq::empty(),
    }
}

/// The quality of a name: one point for being double-case, one for each word
/// that says something, one off for each vague word.
pub open spec fn name_quality(s: Seq<char>) -> int {
    (if doublecase(s) { 1int } else { 0int }) + words_score(name_words(s))
}

/// The score of `n` words lies between `-n` and `n`.
pub proof fn lemma_words_score_bounds(words: Seq<Seq<char>>)
    ensures
        -words.len() <= words_score(words) <= words.len(),
    decreases words.len(),
{
    if words.len() > 0 {
        lemma_words_score_bounds(words.drop_last());
    }
}

/// Tells whether every character of `s` is a lower-case letter.
pub fn is_all_lowercase(s: &str) -> (all: bool)
    ensures
        all == all_lowercase(s@),
{
    let mut all = true;
    for c in it: s.chars()
        invariant
            it.seq() == s@,
            all == (forall|i: int| 0 <= i < it.index() ==> lowercase_char(#[trigger] s@[i])),
    {
        if !c.is_lowercase() {
            all = false;
        }
    }
    all
}

/// Tells whether every character of `s` is an upper-case letter.
pub fn is_all_uppercase(s: &str) -> (all: bool)
    ensures
        all == all_uppercase(s@),
{
    let mut all = true;
    for c in it: s.chars()
        invariant
            it.seq() == s@,
            all == (forall|i: int| 0 <= i < it.index() ==> uppercase_char(#[trigger] s@[i])),
    {
        if !c.is_uppercase() {
            all = false;
        }
    }
    all
}

/// Tells whether a name mixes cases, or holds characters that are no letters.
pub fn str_is_doublecase(s: &str) -> (mixed: bool)
    ensures
        mixed == doublecase(s@),
{
    !is_all_lowercase(s) && !is_all_uppercase(s)
}

/// Tells whether a word is one of the vague words, ignoring case.
pub fn is_vague(word: &str) -> (v: bool)
    ensures
        v == vague(word@),
{
    let upper = word.to_uppercase();
    upper == "play".to_uppercase() || upper == "audio".to_uppercase() || upper
        == "voice".to_uppercase() || upper == "stream".to_uppercase() || upper
        == "driver".to_uppercase() || upper == "webrtc".to_uppercase() || upper
        == "engine".to_uppercase() || upper == "playback".to_uppercase() || upper
        == "callback".to_uppercase() || upper == "alsa".to_uppercase()
}

/// Adds up the values of the words of a name.
pub fn score_words(words: &Vec<String>) -> (score: i32)
    requires
        words.len() <= MAX_SCORED_WORDS,
    ensures
        score == words_score(texts(words@)),
{
    let mut score: i32 = 0;
    let mut i: usize = 0;
    while i < words.len()
        invariant
            i <= words.len() <= MAX_SCORED_WORDS,
            score == words_score(texts(words@).take(i as int)),
        decreases words.len() - i,
    {
        proof {
            let done = texts(words@).take(i as int);
            let next = texts(words@).take(i + 1);
            assert(next.drop_last() == done);
            assert(next.last() == words@[i as int]@);
            lemma_words_score_bounds(done);
        }
        if is_vague(words[i].as_str()) {
            score = score - 1;
        } else {
            score = score + 1;
        }
        i = i + 1;
    }
    proof {
        assert(texts(words@).take(i as int) == texts(words@));
    }
    score
}

/// Scores a name whose words are few enough for the result type.
pub fn calculate_name_quality(s: &str) -> (score: i32)
    requires
        name_words(s@).len() <= MAX_SCORED_WORDS,
    ensures
        score == name_quality(s@),
{
    let case_point: i32 = if str_is_doublecase(s) { 1 } else { 0 };
    let found = find_matches(WORD_PATTERN, s);
    let words = match found {
        Some(words) => words,
        None => Vec::new(),
    };
    proof {
        assert(texts(words@) =~= name_words(s@));
        lemma_words_score_bounds(texts(words@));
    }
    case_point + score_words(&words)
}

/// Scores a name, or gives `None` where it has more words than
/// [`MAX_SCORED_WORDS`].
pub fn checked_name_quality(s: &str) -> (score: Option<i32>)
    ensures
        name_words(s@).len() <= MAX_SCORED_WORDS ==> score == Some(name_quality(s@) as i32),
        name_words(s@).len() > MAX_SCORED_WORDS ==> score is None,
        score matches Some(q) ==> q == name_quality(s@),
{
    let words = match find_matches(WORD_PATTERN, s) {
        Some(words) => words,
        None => Vec::new(),
    };
    proof {
        assert(texts(words@) =~= name_words(s@));
    }
    if words.len() <= MAX_SCORED_WORDS {
        Some(calculate_name_quality(s))
    } else {
        None
    }
}

} // verus!
