//! A capture target with a stable identity.
//!
//! A source outlives the sink inputs it is made from: when its application
//! restarts, the source takes the new sink input and stays the same source.

use vstd::prelude::*;
use vstd::string::StringExecFns;
use crate::kind::{rank_candidates, ranked_names, SourceKind};
use crate::sink_input::{lookup, SinkInput, SinkInputView};
use crate::text::{jaro_bits, jaro_similarity, texts};

verus! {

/// How long a source is kept after it became unavailable, in milliseconds.
pub const MAX_LIFESPAN: u64 = 60_000;

/// The bits of the similarity, 0.3 as a double-precision number, that two
/// names of one application must exceed to count as the same source. The
/// value is a matter of tuning.
pub const SIMILARITY_THRESHOLD: u64 = 0x3FD3_3333_3333_3333;

/// The bits of 1.0 as a double-precision number: the similarity of two equal
/// names, which none exceeds.
pub const SIMILARITY_ONE: u64 = 0x3FF0_0000_0000_0000;

/// The bits of positive infinity as a double-precision number: the largest
/// bit pattern that is a number and not negative.
pub const SIMILARITY_CEILING: u64 = 0x7FF0_0000_0000_0000;

/// A capture target that is tracked across restarts of its application.
#[derive(Debug)]
pub struct Source {
    id: u64,
    kind: SourceKind,
    sink_input: SinkInput,
    name: String,
    application: String,
    available: bool,
    age: u64,
    volume: u32,
}

/// What a source holds, as plain values.
pub struct SourceView {
    /// The identity of the source, which never changes.
    pub id: u64,
    pub kind: SourceKind,
    /// The sink input that the source was last seen as.
    pub sink_input: SinkInputView,
    /// The best name found for the source.
    pub name: Seq<char>,
    /// The program that the source belongs to.
    pub application: Seq<char>,
    /// Whether the last enumeration still reported the source.
    pub available: bool,
    /// When the source was last updated, in milliseconds.
    pub age: u64,
    /// The last measured volume, as the bits of a single-precision number.
    pub volume: u32,
}

/// How alike two sources are.
#[derive(Debug, Clone, Copy, PartialEq, Eq, Structural)]
pub enum SourceComparison {
    /// The same sink input index or the same name.
    Exact,
    /// The same application; the bits of the Jaro similarity of the names.
    Partial(u64),
    /// Different applications.
    Unrelated,
}

/// The time from `since` to `now`, which is zero where `now` is earlier.
pub open spec fn elapsed(since: u64, now: u64) -> int {
    if now >= since {
        now - since
    } else {
        0
    }
}

/// A present value as a list of one, an absent one as the empty list.
pub open spec fn optional(value: Option<Seq<char>>) -> Seq<Seq<char>> {
    match value {
        Some(v) => seq![v],
        None => Seq::empty(),
    }
}

/// The names that a sink input offers for its source: its own name, then
/// the binary, the application, the media and the node named in its metadata.
pub open spec fn name_candidates(raw: SinkInputView) -> Seq<Seq<char>> {
    seq![raw.name] + optional(lookup(raw.props, "application.process.binary"@)) + optional(
        lookup(raw.props, "application.name"@),
    ) + optional(lookup(raw.props, "media.name"@)) + optional(lookup(raw.props, "node.name"@))
}

/// The application that a sink input belongs to: the binary named in its
/// metadata, or else the application named there.
pub open spec fn application_of(raw: SinkInputView) -> Seq<char> {
    match lookup(raw.props, "application.process.binary"@) {
        Some(binary) => binary,
        None => match lookup(raw.props, "application.name"@) {
            Some(name) => name,
            None => "Unknown app"@,
        },
    }
}

impl SourceComparison {
    /// Whether the comparison lets a new sink input pass for an old source:
    /// an exact match does, and a similarity above the threshold.
    pub open spec fn similar_enough(self) -> bool {
        match self {
            SourceComparison::Exact => true,
            SourceComparison::Partial(bits) => SIMILARITY_THRESHOLD < bits <= SIMILARITY_CEILING,
            SourceComparison::Unrelated => false,
        }
    }

    /// Decides whether the comparison lets a new sink input pass for an old
    /// source.
    pub fn is_similar_enough(&self) -> (enough: bool)
        ensures
            enough == self.similar_enough(),
    {
        match self {
            SourceComparison::Exact => true,
            SourceComparison::Partial(bits) => SIMILARITY_THRESHOLD < *bits && *bits
                <= SIMILARITY_CEILING,
            SourceComparison::Unrelated => false,
        }
    }
}

impl SourceView {
    /// The index of the sink input that the source was last seen as.
    pub open spec fn index(self) -> u32 {
        self.sink_input.index
    }

    /// A source is dead once it has been unavailable and not updated for
    /// [`MAX_LIFESPAN`].
    pub open spec fn is_dead(self, now: u64) -> bool {
        !self.available && elapsed(self.age, now) >= MAX_LIFESPAN
    }

    /// The source after it was seen again as `incoming`: the same identity,
    /// kind and application, with the name, sink input and volume of the
    /// newcomer, available and of age `now`.
    pub open spec fn updated(self, incoming: SourceView, now: u64) -> SourceView {
        SourceView {
            name: incoming.name,
            sink_input: incoming.sink_input,
            volume: incoming.volume,
            available: true,
            age: now,
            ..self
        }
    }

    /// The source after its sink input went away.
    pub open spec fn removed(self) -> SourceView {
        SourceView { available: false, ..self }
    }

    /// How alike this source and `rhs` are.
    pub open spec fn compared(self, rhs: SourceView) -> SourceComparison {
        if self.index() == rhs.index() || self.name == rhs.name {
            SourceComparison::Exact
        } else if self.application != rhs.application {
            SourceComparison::Unrelated
        } else {
            SourceComparison::Partial(jaro_bits(self.name, rhs.name))
        }
    }

    /// The source that a sink input gives rise to.
    pub open spec fn derived(raw: SinkInputView, id: u64, now: u64) -> SourceView {
        let ranked = ranked_names(name_candidates(raw));
        let kind = SourceKind::parsed(ranked);
        SourceView {
            id,
            kind,
            sink_input: raw,
            name: kind.name_for(ranked),
            application: application_of(raw),
            available: true,
            age: now,
            volume: raw.volume,
        }
    }
}

impl View for Source {
    type V = SourceView;

    closed spec fn view(&self) -> SourceView {
        SourceView {
            id: self.id,
            kind: self.kind,
            sink_input: self.sink_input@,
            name: self.name@,
            application: self.application@,
            available: self.available,
            age: self.age,
            volume: self.volume,
        }
    }
}

impl Clone for Source {
    fn clone(&self) -> (copy: Self)
        ensures
            copy@ == self@,
    {
        Source {
            id: self.id,
            kind: self.kind,
            sink_input: self.sink_input.clone(),
            name: self.name.clone(),
            application: self.application.clone(),
            available: self.available,
            age: self.age,
            volume: self.volume,
        }
    }
}

/// Appends a metadata value to the candidates where the sink input has it.
fn push_property(candidates: &mut Vec<String>, raw: &SinkInput, key: &str)
    ensures
        texts(final(candidates)@) == texts(old(candidates)@) + optional(lookup(raw@.props, key@)),
{
    match raw.get_str(key) {
        Some(value) => {
            candidates.push(value);
            proof {
                assert(texts(candidates@) =~= texts(old(candidates)@) + seq![value@]);
            }
        },
        None => {
            proof {
                assert(texts(candidates@) =~= texts(old(candidates)@) + Seq::<Seq<char>>::empty());
            }
        },
    }
}

impl Source {
    /// Makes the source that stands for a sink input seen at `now`: its name
    /// is the best of the candidates that the sink input offers.
    pub fn from_sink_input(raw: SinkInput, id: u64, now: u64) -> (source: Source)
        ensures
            source@ == SourceView::derived(raw@, id, now),
    {
        let mut candidates: Vec<String> = Vec::new();
        candidates.push(raw.name.clone());
        proof {
            assert(texts(candidates@) =~= seq![raw@.name]);
        }
        push_property(&mut candidates, &raw, "application.process.binary");
        push_property(&mut candidates, &raw, "application.name");
        push_property(&mut candidates, &raw, "media.name");
        push_property(&mut candidates, &raw, "node.name");
        let ranked = rank_candidates(&candidates);
        let kind = SourceKind::parse(&ranked);
        let name = kind.determine_name(&ranked);
        let application = match raw.get_str("application.process.binary") {
            Some(binary) => binary,
            None => match raw.get_str("application.name") {
                Some(name) => name,
                None => String::from_str("Unknown app"),
            },
        };
        let volume = raw.volume;
        Source { id, kind, sink_input: raw, name, application, available: true, age: now, volume }
    }

    /// Takes over what `incoming` knows: the source is available again and
    /// counts as updated at `now`.
    pub fn update(&mut self, incoming: &Source, now: u64)
        ensures
            final(self)@ == old(self)@.updated(incoming@, now),
    {
        self.age = now;
        self.name = incoming.name.clone();
        self.sink_input = incoming.sink_input.clone();
        self.volume = incoming.volume;
        self.available = true;
    }

    /// Says how alike this source and `rhs` are.
    pub fn compare(&self, rhs: &Source) -> (comparison: SourceComparison)
        ensures
            comparison == self@.compared(rhs@),
            comparison matches SourceComparison::Partial(bits) ==> bits <= SIMILARITY_ONE,
    {
        let is_same_index = self.sink_input.index == rhs.sink_input.index;
        let is_same_name = self.name == rhs.name;
        if is_same_index || is_same_name {
            return SourceComparison::Exact;
        }
        if self.application != rhs.application {
            return SourceComparison::Unrelated;
        }
        SourceComparison::Partial(jaro_similarity(self.name.as_str(), rhs.name.as_str()))
    }

    /// Marks the source as gone from the audio server.
    pub fn remove(&mut self)
        ensures
            final(self)@ == old(self)@.removed(),
    {
        self.available = false;
    }

    /// Tells whether the source has been gone for too long at `now`.
    pub fn is_dead(&self, now: u64) -> (dead: bool)
        ensures
            dead == self@.is_dead(now),
    {
        let since: u64 = if now >= self.age { now - self.age } else { 0 };
        !self.available && since >= MAX_LIFESPAN
    }

    /// The identity of the source.
    pub fn id(&self) -> (id: u64)
        ensures
            id == self@.id,
    {
        self.id
    }

    /// The kind of the source.
    pub fn kind(&self) -> (kind: SourceKind)
        ensures
            kind == self@.kind,
    {
        self.kind
    }

    /// The sink input that the source was last seen as.
    pub fn sink_input(&self) -> (raw: SinkInput)
        ensures
            raw@ == self@.sink_input,
    {
        self.sink_input.clone()
    }

    /// The index of the sink input that the source was last seen as.
    pub fn index(&self) -> (index: u32)
        ensures
            index == self@.index(),
    {
        self.sink_input.index
    }

    /// Whether the last enumeration still reported the source.
    pub fn available(&self) -> (available: bool)
        ensures
            available == self@.available,
    {
        self.available
    }

    /// The last measured volume, as the bits of a single-precision number.
    pub fn volume(&self) -> (volume: u32)
        ensures
            volume == self@.volume,
    {
        self.volume
    }

    /// When the source was last updated, in milliseconds.
    pub fn age(&self) -> (age: u64)
        ensures
            age == self@.age,
    {
        self.age
    }

    /// The name of the source.
    pub fn name(&self) -> (name: String)
        ensures
            name@ == self@.name,
    {
        self.name.clone()
    }

    /// The program that the source belongs to.
    pub fn application(&self) -> (application: String)
        ensures
            application@ == self@.application,
    {
        self.application.clone()
    }
}

} // verus!
