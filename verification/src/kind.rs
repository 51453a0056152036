//! What kind of program stands behind an audio source, and the name it is
//! shown under.
//!
//! A browser plays every tab through one sink input per tab, all of them named
//! after the browser. For those the name of the tab is looked for among the
//! candidates; any other source takes its best candidate.

use vstd::prelude::*;
use vstd::string::StringExecFns;
use vstd::std_specs::convert::FromSpecImpl;
use crate::name::{checked_name_quality, name_quality, name_words, MAX_SCORED_WORDS};
use crate::order::{descending_order, ints, lemma_filter_push, order_descending, pick, positions};
use crate::text::{eq_ignore_case, texts, uppercase};

verus! {

/// The browsers whose tabs are told apart.
#[derive(Debug, Clone, Copy, PartialEq, Eq, Structural)]
pub enum BrowserKind {
    Firefox,
    Chrome,
}

/// A source is a program of its own or one tab of a browser.
#[derive(Debug, Clone, Copy, PartialEq, Eq, Structural)]
pub enum SourceKind {
    Standalone,
    BrowserTab(BrowserKind),
}

/// The first candidate that differs from `label` when case is ignored.
pub open spec fn first_other(candidates: Seq<Seq<char>>, label: Seq<char>) -> Option<Seq<char>>
    decreases candidates.len(),
{
    if candidates.len() == 0 {
        None
    } else if uppercase(candidates[0]) != uppercase(label) {
        Some(candidates[0])
    } else {
        first_other(candidates.drop_first(), label)
    }
}

/// The browser that the first candidate naming a browser names.
pub open spec fn first_browser(candidates: Seq<Seq<char>>) -> Option<BrowserKind>
    decreases candidates.len(),
{
    if candidates.len() == 0 {
        None
    } else if BrowserKind::parsed(candidates[0]) is Some {
        BrowserKind::parsed(candidates[0])
    } else {
        first_browser(candidates.drop_first())
    }
}

impl BrowserKind {
    /// The name of the browser.
    pub open spec fn label(self) -> Seq<char> {
        match self {
            BrowserKind::Firefox => "Firefox"@,
            BrowserKind::Chrome => "Chrome"@,
        }
    }

    /// The browser that a name stands for, ignoring case.
    pub open spec fn parsed(name: Seq<char>) -> Option<BrowserKind> {
        if uppercase(name) == uppercase("Firefox"@) {
            Some(BrowserKind::Firefox)
        } else if uppercase(name) == uppercase("Chrome"@) {
            Some(BrowserKind::Chrome)
        } else {
            None
        }
    }

    /// The name a tab goes by when no candidate tells it from its browser.
    pub open spec fn unidentified(self) -> Seq<char> {
        "Unidentifiable "@ + self.label() + " Tab"@
    }

    /// The name of a tab of this browser: the first candidate that is not the
    /// browser's own name.
    pub open spec fn tab_name(self, candidates: Seq<Seq<char>>) -> Seq<char> {
        match first_other(candidates, self.label()) {
            Some(name) => name,
            None => self.unidentified(),
        }
    }

    /// The name of the browser as text.
    pub fn to_string(&self) -> (name: String)
        ensures
            name@ == self.label(),
    {
        match self {
            BrowserKind::Firefox => String::from_str("Firefox"),
            BrowserKind::Chrome => String::from_str("Chrome"),
        }
    }

    /// Recognises a browser by its name, ignoring case.
    pub fn parse(name: &str) -> (kind: Option<BrowserKind>)
        ensures
            kind == Self::parsed(name@),
    {
        if eq_ignore_case(name, "Firefox") {
            Some(BrowserKind::Firefox)
        } else if eq_ignore_case(name, "Chrome") {
            Some(BrowserKind::Chrome)
        } else {
            None
        }
    }

    /// Picks the name of a tab among the candidates.
    pub fn determine_tab_name(&self, candidates: &Vec<String>) -> (name: String)
        ensures
            name@ == self.tab_name(texts(candidates@)),
    {
        let browser_name = self.to_string();
        let mut i: usize = 0;
        proof {
            assert(texts(candidates@).skip(0) == texts(candidates@));
        }
        while i < candidates.len()
            invariant
                i <= candidates.len(),
                browser_name@ == self.label(),
                first_other(texts(candidates@), self.label()) == first_other(
                    texts(candidates@).skip(i as int),
                    self.label(),
                ),
            decreases candidates.len() - i,
        {
            proof {
                let rest = texts(candidates@).skip(i as int);
                assert(rest[0] == candidates@[i as int]@);
                assert(rest.drop_first() == texts(candidates@).skip(i + 1));
            }
            if !eq_ignore_case(candidates[i].as_str(), browser_name.as_str()) {
                return candidates[i].clone();
            }
            i = i + 1;
        }
        let mut name = String::from_str("Unidentifiable ");
        name.append(browser_name.as_str());
        name.append(" Tab");
        name
    }
}

impl SourceKind {
    /// The name a source goes by when it has no candidate at all.
    pub open spec fn unidentified() -> Seq<char> {
        "Unidentifiable audio source"@
    }

    /// The kind that a list of candidates speaks for: a tab of the first
    /// browser named among them, or else a program of its own.
    pub open spec fn parsed(candidates: Seq<Seq<char>>) -> SourceKind {
        match first_browser(candidates) {
            Some(browser) => SourceKind::BrowserTab(browser),
            None => SourceKind::Standalone,
        }
    }

    /// The name of a source of this kind, given its candidates best first.
    pub open spec fn name_for(self, candidates: Seq<Seq<char>>) -> Seq<char> {
        match self {
            SourceKind::BrowserTab(browser) => browser.tab_name(candidates),
            SourceKind::Standalone => if candidates.len() > 0 {
                candidates[0]
            } else {
                Self::unidentified()
            },
        }
    }

    /// Decides the kind of a source from its candidates.
    pub fn parse(candidates: &Vec<String>) -> (kind: SourceKind)
        ensures
            kind == Self::parsed(texts(candidates@)),
    {
        let mut i: usize = 0;
        proof {
            assert(texts(candidates@).skip(0) == texts(candidates@));
        }
        while i < candidates.len()
            invariant
                i <= candidates.len(),
                first_browser(texts(candidates@)) == first_browser(
                    texts(candidates@).skip(i as int),
                ),
            decreases candidates.len() - i,
        {
            proof {
                let rest = texts(candidates@).skip(i as int);
                assert(rest[0] == candidates@[i as int]@);
                assert(rest.drop_first() == texts(candidates@).skip(i + 1));
            }
            match BrowserKind::parse(candidates[i].as_str()) {
                Some(browser) => {
                    return SourceKind::BrowserTab(browser);
                },
                None => {},
            }
            i = i + 1;
        }
        SourceKind::Standalone
    }

    /// Picks the name of a source of this kind among its candidates.
    pub fn determine_name(&self, candidates: &Vec<String>) -> (name: String)
        ensures
            name@ == self.name_for(texts(candidates@)),
    {
        match self {
            SourceKind::BrowserTab(browser) => browser.determine_tab_name(candidates),
            SourceKind::Standalone => {
                if candidates.len() > 0 {
                    candidates[0].clone()
                } else {
                    String::from_str("Unidentifiable audio source")
                }
            },
        }
    }
}

impl From<BrowserKind> for SourceKind {
    fn from(value: BrowserKind) -> (kind: SourceKind) {
        SourceKind::BrowserTab(value)
    }
}

impl FromSpecImpl<BrowserKind> for SourceKind {
    open spec fn obeys_from_spec() -> bool {
        true
    }

    open spec fn from_spec(value: BrowserKind) -> SourceKind {
        SourceKind::BrowserTab(value)
    }
}

/// A candidate is kept when its quality can be scored: when its words are
/// no more than [`MAX_SCORED_WORDS`].
pub open spec fn keeps(candidate: Seq<char>) -> bool {
    name_words(candidate).len() <= MAX_SCORED_WORDS
}

/// The candidates that can be scored, in the order in which they stand.
pub open spec fn kept_names(candidates: Seq<Seq<char>>) -> Seq<Seq<char>> {
    candidates.filter(|c: Seq<char>| keeps(c))
}

/// The quality of each name.
pub open spec fn qualities(names: Seq<Seq<char>>) -> Seq<int> {
    names.map_values(|c: Seq<char>| name_quality(c))
}

/// The candidates that can be scored, best first; candidates of one quality
/// stay in the order in which they stand.
pub open spec fn ranked_names(candidates: Seq<Seq<char>>) -> Seq<Seq<char>> {
    let kept = kept_names(candidates);
    pick(kept, descending_order(qualities(kept)))
}

/// Puts the candidates best first. Every candidate that can be scored stays
/// in the list, however little it says.
pub fn rank_candidates(candidates: &Vec<String>) -> (ranked: Vec<String>)
    ensures
        texts(ranked@) == ranked_names(texts(candidates@)),
{
    let mut kept: Vec<String> = Vec::new();
    let mut scores: Vec<i128> = Vec::new();
    let mut i: usize = 0;
    proof {
        reveal(Seq::filter);
        assert(texts(candidates@).take(0) =~= Seq::<Seq<char>>::empty());
        assert(texts(kept@) =~= kept_names(texts(candidates@).take(0)));
        assert(ints(scores@) =~= qualities(texts(kept@)));
    }
    while i < candidates.len()
        invariant
            i <= candidates.len(),
            texts(kept@) == kept_names(texts(candidates@).take(i as int)),
            ints(scores@) == qualities(texts(kept@)),
        decreases candidates.len() - i,
    {
        let quality = checked_name_quality(candidates[i].as_str());
        proof {
            let front = texts(candidates@).take(i as int);
            let c = candidates@[i as int]@;
            assert(texts(candidates@).take(i + 1) == front.push(c));
            lemma_filter_push(front, c, |c: Seq<char>| keeps(c));
        }
        match quality {
            Some(q) => {
                let ghost before = kept@;
                let ghost before_scores = scores@;
                kept.push(candidates[i].clone());
                scores.push(q as i128);
                proof {
                    assert(texts(kept@) =~= texts(before).push(candidates@[i as int]@));
                    assert(ints(scores@) =~= ints(before_scores).push(q as int));
                    assert(ints(scores@) =~= qualities(texts(kept@)));
                }
            },
            None => {},
        }
        i = i + 1;
    }
    proof {
        assert(texts(candidates@).take(i as int) == texts(candidates@));
    }
    let order = order_descending(&scores);
    let mut ranked: Vec<String> = Vec::new();
    let mut j: usize = 0;
    while j < order.len()
        invariant
            j <= order.len(),
            order.len() == kept.len(),
            forall|a: int| 0 <= a < order.len() ==> #[trigger] order[a] < kept.len(),
            ranked.len() == j,
            forall|a: int| 0 <= a < j ==> (#[trigger] ranked@[a])@ == kept@[order@[a] as int]@,
        decreases order.len() - j,
    {
        ranked.push(kept[order[j]].clone());
        j = j + 1;
    }
    proof {
        assert(texts(ranked@) =~= pick(texts(kept@), positions(order@)));
    }
    ranked
}

} // verus!
