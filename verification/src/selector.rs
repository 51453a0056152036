//! The catalog of known sources and the source the user asked for.
//!
//! The selector turns the events of the audio server into a stable catalog.
//! A sink input that appears while the selected source is gone, and that is
//! enough like it, is taken for the selected source coming back.

use vstd::prelude::*;
use crate::order::{descending_order, ints, lemma_filter_push, order_descending, pick, positions};
use crate::sink_input::{SinkInput, SinkInputView};
use crate::source::{Source, SourceView};
use crate::text::{eq_ignore_case, uppercase};

verus! {

/// What the audio server says happened to a sink input.
#[derive(Debug, Clone, Copy, PartialEq, Eq, Structural)]
pub enum Operation {
    New,
    Changed,
    Removed,
}

/// Why an event could not be applied to the catalog.
#[derive(Debug, Clone, Copy, PartialEq, Eq, Structural)]
pub enum SelectorError {
    /// The enumeration holds no sink input with the index of the event.
    NotEnumerated,
    /// The catalog holds no source with the index of the event.
    UnknownSource,
    /// Every identity has been handed out.
    Exhausted,
}

/// Keeps the catalog of sources and the user's selection.
#[derive(Debug)]
pub struct SourceSelector {
    stored: Vec<Source>,
    selected: Option<Source>,
    next_id: u64,
    allow_spotify: bool,
}

/// What a selector holds, as plain values.
pub struct SelectorView {
    /// The known sources, in the order in which they were first seen.
    pub catalog: Seq<SourceView>,
    /// The source the user asked for, in its present state.
    pub selected: Option<SourceView>,
    /// The identity that the next new source gets.
    pub next_id: u64,
    /// Whether sources named Spotify are listed.
    pub allow_spotify: bool,
}

/// The views of a sequence of sources.
pub open spec fn views(sources: Seq<Source>) -> Seq<SourceView> {
    sources.map_values(|s: Source| s@)
}

/// The views of a sequence of sink inputs.
pub open spec fn raw_views(raws: Seq<SinkInput>) -> Seq<SinkInputView> {
    raws.map_values(|r: SinkInput| r@)
}

/// The view of a source that may be absent.
pub open spec fn option_view(source: Option<Source>) -> Option<SourceView> {
    match source {
        Some(s) => Some(s@),
        None => None,
    }
}

/// The name is Spotify's, ignoring case.
pub open spec fn is_spotify(name: Seq<char>) -> bool {
    uppercase(name) == uppercase("Spotify"@)
}

/// The ages of some sources.
pub open spec fn ages(sources: Seq<SourceView>) -> Seq<int> {
    sources.map_values(|s: SourceView| s.age as int)
}

/// The test that a source passes to be listed at `now`: it is not dead, and
/// it is not Spotify unless that is allowed.
pub open spec fn shown(allow_spotify: bool, now: u64) -> spec_fn(SourceView) -> bool {
    |s: SourceView| !s.is_dead(now) && (allow_spotify || !is_spotify(s.name))
}

/// The test that a source passes to stay in the catalog at `now`.
pub open spec fn alive(now: u64) -> spec_fn(SourceView) -> bool {
    |s: SourceView| !s.is_dead(now)
}

/// The sources made from an enumeration, which take the identities from
/// `first_id` on.
pub open spec fn enumerated(raws: Seq<SinkInputView>, first_id: u64, now: u64) -> Seq<SourceView> {
    Seq::new(raws.len(), |i: int| SourceView::derived(raws[i], (first_id + i) as u64, now))
}

/// The first sink input of an enumeration with the given index.
pub open spec fn incoming(raws: Seq<SinkInputView>, index: u32) -> Option<SinkInputView>
    decreases raws.len(),
{
    if raws.len() == 0 {
        None
    } else if raws[0].index == index {
        Some(raws[0])
    } else {
        incoming(raws.drop_first(), index)
    }
}

/// The position of the first source with the given sink input index.
pub open spec fn position(catalog: Seq<SourceView>, index: u32) -> Option<int>
    decreases catalog.len(),
{
    if catalog.len() == 0 {
        None
    } else if catalog[0].index() == index {
        Some(0)
    } else {
        match position(catalog.drop_first(), index) {
            Some(p) => Some(p + 1),
            None => None,
        }
    }
}

/// The position of the first source with the given identity.
pub open spec fn holder(catalog: Seq<SourceView>, id: u64) -> Option<int>
    decreases catalog.len(),
{
    if catalog.len() == 0 {
        None
    } else if catalog[0].id == id {
        Some(0)
    } else {
        match holder(catalog.drop_first(), id) {
            Some(p) => Some(p + 1),
            None => None,
        }
    }
}

/// `s` where the source has its identity, the source itself elsewhere.
pub open spec fn replaced(source: SourceView, s: SourceView) -> SourceView {
    if source.id == s.id {
        s
    } else {
        source
    }
}

impl SelectorView {
    /// The catalog holds each identity once, every identity in use lies below
    /// the next one, and the selected source agrees with its catalog entry.
    pub open spec fn wf(self) -> bool {
        &&& forall|i: int| 0 <= i < self.catalog.len() ==> (#[trigger] self.catalog[i]).id < self.next_id
        &&& forall|i: int, j: int|
            0 <= i < j < self.catalog.len() ==> (#[trigger] self.catalog[i]).id != (
            #[trigger] self.catalog[j]).id
        &&& self.selected matches Some(s) ==> {
            &&& s.id < self.next_id || s.id == u64::MAX
            &&& forall|i: int|
                0 <= i < self.catalog.len() && (#[trigger] self.catalog[i]).id == s.id
                    ==> self.catalog[i] == s
        }
    }

    /// The source that is being captured: the selected one while it is
    /// available.
    pub open spec fn current(self) -> Option<SourceView> {
        match self.selected {
            Some(s) => if s.available {
                Some(s)
            } else {
                None
            },
            None => None,
        }
    }

    /// The sources that are listed at `now`, in catalog order.
    pub open spec fn visible(self, now: u64) -> Seq<SourceView> {
        self.catalog.filter(shown(self.allow_spotify, now))
    }

    /// The sources that are listed at `now`, the most recently updated first;
    /// sources of one age stay in catalog order.
    pub open spec fn listed(self, now: u64) -> Seq<SourceView> {
        let visible = self.visible(now);
        pick(visible, descending_order(ages(visible)))
    }

    /// The state in which a source stands where the catalog knows its
    /// identity: as the catalog has it.
    pub open spec fn adopted(self, source: SourceView) -> SourceView {
        match holder(self.catalog, source.id) {
            Some(p) => self.catalog[p],
            None => source,
        }
    }

    /// The selector after `source` was selected, or the selection cleared.
    /// An identity from elsewhere is set aside, so that no new source gets it.
    pub open spec fn select(self, source: Option<SourceView>) -> SelectorView {
        match source {
            Some(s) => SelectorView {
                selected: Some(self.adopted(s)),
                next_id: if s.id < self.next_id || s.id == u64::MAX {
                    self.next_id
                } else {
                    (s.id + 1) as u64
                },
                ..self
            },
            None => SelectorView { selected: None, ..self },
        }
    }

    /// The selector after one source changed: whoever holds its identity holds
    /// its new state.
    pub open spec fn with_source(self, s: SourceView) -> SelectorView {
        SelectorView {
            catalog: self.catalog.map_values(|c: SourceView| replaced(c, s)),
            selected: match self.selected {
                Some(sel) => Some(replaced(sel, s)),
                None => None,
            },
            ..self
        }
    }

    /// The selector after a new source entered the catalog.
    pub open spec fn inserted(self, s: SourceView) -> SelectorView {
        SelectorView {
            catalog: self.catalog.push(SourceView { id: self.next_id, ..s }),
            next_id: (self.next_id + 1) as u64,
            ..self
        }
    }

    /// The selector after the dead sources left the catalog.
    pub open spec fn pruned(self, now: u64) -> SelectorView {
        SelectorView { catalog: self.catalog.filter(alive(now)), ..self }
    }

    /// Whether a newly seen source is taken for the selected one coming back:
    /// the selected source is gone, and the newcomer is enough like it.
    pub open spec fn reconciles(self, newcomer: SourceView) -> bool {
        self.selected matches Some(s) && !s.available && s.compared(newcomer).similar_enough()
    }

    /// The selector after an event of the audio server about the sink input
    /// `index`, given the enumeration `raws` taken at `now`; or the reason why
    /// the event cannot be applied.
    ///
    /// A new sink input either makes the selected source available again or
    /// enters the catalog as a source of its own. A changed one updates the
    /// first source that has its index, a removed one marks that source as
    /// unavailable. After each of these the dead sources leave the catalog.
    pub open spec fn handled(
        self,
        index: u32,
        operation: Operation,
        raws: Seq<SinkInputView>,
        now: u64,
    ) -> Result<SelectorView, SelectorError> {
        match operation {
            Operation::New => match incoming(raws, index) {
                None => Err(SelectorError::NotEnumerated),
                Some(raw) => {
                    let newcomer = SourceView::derived(raw, self.next_id, now);
                    if self.reconciles(newcomer) {
                        Ok(
                            self.with_source(self.selected->0.updated(newcomer, now)).pruned(
                                now,
                            ),
                        )
                    } else if self.next_id == u64::MAX {
                        Err(SelectorError::Exhausted)
                    } else {
                        Ok(self.inserted(newcomer).pruned(now))
                    }
                },
            },
            Operation::Changed => match position(self.catalog, index) {
                None => Err(SelectorError::UnknownSource),
                Some(p) => match incoming(raws, index) {
                    None => Err(SelectorError::NotEnumerated),
                    Some(raw) => {
                        let existing = self.catalog[p];
                        let newcomer = SourceView::derived(raw, existing.id, now);
                        Ok(self.with_source(existing.updated(newcomer, now)).pruned(now))
                    },
                },
            },
            Operation::Removed => match position(self.catalog, index) {
                None => Err(SelectorError::UnknownSource),
                Some(p) => Ok(self.with_source(self.catalog[p].removed()).pruned(now)),
            },
        }
    }
}

impl View for SourceSelector {
    type V = SelectorView;

    closed spec fn view(&self) -> SelectorView {
        SelectorView {
            catalog: views(self.stored@),
            selected: option_view(self.selected),
            next_id: self.next_id,
            allow_spotify: self.allow_spotify,
        }
    }
}

/// Finds the first source with the given identity.
fn find_holder(stored: &Vec<Source>, id: u64) -> (found: Option<usize>)
    ensures
        found is Some == holder(views(stored@), id) is Some,
        found matches Some(p) ==> p == holder(views(stored@), id)->0 && p < stored.len(),
{
    let mut i: usize = 0;
    proof {
        assert(views(stored@).skip(0) == views(stored@));
    }
    while i < stored.len()
        invariant
            i <= stored.len(),
            holder(views(stored@), id) == match holder(views(stored@).skip(i as int), id) {
                Some(p) => Some(p + i),
                None => None,
            },
        decreases stored.len() - i,
    {
        proof {
            let rest = views(stored@).skip(i as int);
            assert(rest[0] == stored@[i as int]@);
            assert(rest.drop_first() == views(stored@).skip(i + 1));
        }
        if stored[i].id() == id {
            return Some(i);
        }
        i = i + 1;
    }
    None
}

/// Finds the first source with the given sink input index.
fn find_position(stored: &Vec<Source>, index: u32) -> (found: Option<usize>)
    ensures
        found is Some == position(views(stored@), index) is Some,
        found matches Some(p) ==> p == position(views(stored@), index)->0 && p < stored.len(),
{
    let mut i: usize = 0;
    proof {
        assert(views(stored@).skip(0) == views(stored@));
    }
    while i < stored.len()
        invariant
            i <= stored.len(),
            position(views(stored@), index) == match position(
                views(stored@).skip(i as int),
                index,
            ) {
                Some(p) => Some(p + i),
                None => None,
            },
        decreases stored.len() - i,
    {
        proof {
            let rest = views(stored@).skip(i as int);
            assert(rest[0] == stored@[i as int]@);
            assert(rest.drop_first() == views(stored@).skip(i + 1));
        }
        if stored[i].index() == index {
            return Some(i);
        }
        i = i + 1;
    }
    None
}

/// Finds the first sink input with the given index.
fn find_incoming(sink_inputs: &Vec<SinkInput>, index: u32) -> (found: Option<usize>)
    ensures
        found is Some == incoming(raw_views(sink_inputs@), index) is Some,
        found matches Some(p) ==> p < sink_inputs.len() && incoming(
            raw_views(sink_inputs@),
            index,
        ) == Some(sink_inputs@[p as int]@),
{
    let mut i: usize = 0;
    proof {
        assert(raw_views(sink_inputs@).skip(0) == raw_views(sink_inputs@));
    }
    while i < sink_inputs.len()
        invariant
            i <= sink_inputs.len(),
            incoming(raw_views(sink_inputs@), index) == incoming(
                raw_views(sink_inputs@).skip(i as int),
                index,
            ),
        decreases sink_inputs.len() - i,
    {
        proof {
            let rest = raw_views(sink_inputs@).skip(i as int);
            assert(rest[0] == sink_inputs@[i as int]@);
            assert(rest.drop_first() == raw_views(sink_inputs@).skip(i + 1));
        }
        if sink_inputs[i].index == index {
            return Some(i);
        }
        i = i + 1;
    }
    None
}

impl SourceSelector {
    /// Makes the selector from a first enumeration, taken at `now`. Nothing
    /// is selected.
    pub fn new(sink_inputs: &Vec<SinkInput>, allow_spotify: bool, now: u64) -> (selector: Self)
        ensures
            selector@.wf(),
            selector@.catalog == enumerated(raw_views(sink_inputs@), 0, now),
            selector@.selected is None,
            selector@.next_id == sink_inputs.len(),
            selector@.allow_spotify == allow_spotify,
    {
        let mut stored: Vec<Source> = Vec::new();
        let mut i: usize = 0;
        while i < sink_inputs.len()
            invariant
                i <= sink_inputs.len(),
                stored.len() == i,
                forall|k: int|
                    0 <= k < i ==> (#[trigger] stored@[k])@ == SourceView::derived(
                        sink_inputs@[k]@,
                        k as u64,
                        now,
                    ),
            decreases sink_inputs.len() - i,
        {
            stored.push(Source::from_sink_input(sink_inputs[i].clone(), i as u64, now));
            i = i + 1;
        }
        proof {
            assert(views(stored@) =~= enumerated(raw_views(sink_inputs@), 0, now));
        }
        SourceSelector { stored, selected: None, next_id: sink_inputs.len() as u64, allow_spotify }
    }

    /// Lists the sources that are neither dead at `now` nor filtered out, the
    /// most recently updated first.
    pub fn sources(&self, now: u64) -> (listed: Vec<Source>)
        ensures
            views(listed@) == self@.listed(now),
    {
        let mut visible: Vec<Source> = Vec::new();
        let mut keys: Vec<i128> = Vec::new();
        let mut i: usize = 0;
        let ghost test = shown(self.allow_spotify, now);
        proof {
            reveal(Seq::filter);
            assert(views(self.stored@).take(0) =~= Seq::<SourceView>::empty());
            assert(views(visible@) =~= views(self.stored@).take(0).filter(test));
            assert(ints(keys@) =~= ages(views(visible@)));
        }
        while i < self.stored.len()
            invariant
                i <= self.stored.len(),
                test == shown(self.allow_spotify, now),
                views(visible@) == views(self.stored@).take(i as int).filter(test),
                ints(keys@) == ages(views(visible@)),
            decreases self.stored.len() - i,
        {
            let source = &self.stored[i];
            proof {
                let front = views(self.stored@).take(i as int);
                assert(views(self.stored@).take(i + 1) == front.push(source@));
                lemma_filter_push(front, source@, test);
            }
            let name = source.name();
            if !source.is_dead(now) && (self.allow_spotify || !eq_ignore_case(
                name.as_str(),
                "Spotify",
            )) {
                let ghost before = visible@;
                let ghost before_keys = keys@;
                visible.push(source.clone());
                keys.push(source.age() as i128);
                proof {
                    assert(views(visible@) =~= views(before).push(source@));
                    assert(ints(keys@) =~= ints(before_keys).push(source@.age as int));
                    assert(ints(keys@) =~= ages(views(visible@)));
                }
            }
            i = i + 1;
        }
        proof {
            assert(views(self.stored@).take(i as int) == views(self.stored@));
        }
        let order = order_descending(&keys);
        let mut listed: Vec<Source> = Vec::new();
        let mut j: usize = 0;
        while j < order.len()
            invariant
                j <= order.len(),
                order.len() == visible.len(),
                forall|a: int| 0 <= a < order.len() ==> #[trigger] order[a] < visible.len(),
                listed.len() == j,
                forall|a: int| 0 <= a < j ==> (#[trigger] listed@[a])@ == visible@[order@[a] as int]@,
            decreases order.len() - j,
        {
            listed.push(visible[order[j]].clone());
            j = j + 1;
        }
        proof {
            assert(views(listed@) =~= pick(views(visible@), positions(order@)));
        }
        listed
    }

    /// The source that is being captured: the selected one while it is
    /// available.
    pub fn current_source(&self) -> (current: Option<Source>)
        ensures
            option_view(current) == self@.current(),
    {
        match &self.selected {
            Some(s) => if s.available() {
                Some(s.clone())
            } else {
                None
            },
            None => None,
        }
    }

    /// The source the user asked for.
    pub fn selected_source(&self) -> (selected: Option<Source>)
        ensures
            option_view(selected) == self@.selected,
    {
        match &self.selected {
            Some(s) => Some(s.clone()),
            None => None,
        }
    }

    /// Selects a source, or clears the selection. A source that the catalog
    /// knows is selected in the state the catalog has it in.
    pub fn select(&mut self, source: Option<Source>)
        requires
            old(self)@.wf(),
        ensures
            final(self)@.wf(),
            final(self)@ == old(self)@.select(option_view(source)),
    {
        match source {
            Some(s) => {
                let id = s.id();
                match find_holder(&self.stored, id) {
                    Some(p) => {
                        self.selected = Some(self.stored[p].clone());
                        proof {
                            lemma_holder(views(self.stored@), id);
                        }
                    },
                    None => {
                        proof {
                            lemma_holder(views(self.stored@), id);
                        }
                        self.selected = Some(s);
                    },
                }
                if id >= self.next_id && id < u64::MAX {
                    self.next_id = id + 1;
                }
            },
            None => {
                self.selected = None;
            },
        }
    }
}

impl SourceSelector {
    /// Gives every holder of the identity of `source` the state of `source`.
    fn write_through(&mut self, source: &Source)
        ensures
            final(self)@ == old(self)@.with_source(source@),
    {
        let mut i: usize = 0;
        while i < self.stored.len()
            invariant
                i <= self.stored.len(),
                self.stored.len() == old(self).stored.len(),
                self.selected == old(self).selected,
                self.next_id == old(self).next_id,
                self.allow_spotify == old(self).allow_spotify,
                forall|k: int|
                    0 <= k < i ==> (#[trigger] self.stored@[k])@ == replaced(
                        old(self).stored@[k]@,
                        source@,
                    ),
                forall|k: int|
                    i <= k < self.stored.len() ==> (#[trigger] self.stored@[k]) == old(
                        self,
                    ).stored@[k],
            decreases self.stored.len() - i,
        {
            if self.stored[i].id() == source.id() {
                self.stored.set(i, source.clone());
            }
            i = i + 1;
        }
        let replace_selected = match &self.selected {
            Some(s) => s.id() == source.id(),
            None => false,
        };
        if replace_selected {
            self.selected = Some(source.clone());
        }
        proof {
            assert(views(self.stored@) =~= old(self)@.with_source(source@).catalog);
        }
    }

    /// Drops the sources that are dead at `now` from the catalog.
    fn prune(&mut self, now: u64)
        ensures
            final(self)@ == old(self)@.pruned(now),
    {
        let mut kept: Vec<Source> = Vec::new();
        let mut i: usize = 0;
        let ghost test = alive(now);
        proof {
            reveal(Seq::filter);
            assert(views(self.stored@).take(0) =~= Seq::<SourceView>::empty());
            assert(views(kept@) =~= views(self.stored@).take(0).filter(test));
        }
        while i < self.stored.len()
            invariant
                i <= self.stored.len(),
                test == alive(now),
                views(kept@) == views(self.stored@).take(i as int).filter(test),
            decreases self.stored.len() - i,
        {
            let source = &self.stored[i];
            proof {
                let front = views(self.stored@).take(i as int);
                assert(views(self.stored@).take(i + 1) == front.push(source@));
                lemma_filter_push(front, source@, test);
            }
            if !source.is_dead(now) {
                let ghost before = kept@;
                kept.push(source.clone());
                proof {
                    assert(views(kept@) =~= views(before).push(source@));
                }
            }
            i = i + 1;
        }
        proof {
            assert(views(self.stored@).take(i as int) == views(self.stored@));
        }
        self.stored = kept;
    }

    /// Applies an event of the audio server about the sink input `index`,
    /// given the enumeration that was taken at `now` after the event came.
    ///
    /// An event that cannot be applied leaves the selector as it was and is
    /// answered with the reason.
    pub fn handle_sink_input_event(
        &mut self,
        index: u32,
        operation: Operation,
        sink_inputs: &Vec<SinkInput>,
        now: u64,
    ) -> (result: Result<(), SelectorError>)
        requires
            old(self)@.wf(),
        ensures
            final(self)@.wf(),
            match old(self)@.handled(index, operation, raw_views(sink_inputs@), now) {
                Ok(next) => result is Ok && final(self)@ == next,
                Err(reason) => result == Err::<(), SelectorError>(reason) && final(self)@ == old(
                    self,
                )@,
            },
    {
        let arrived = find_incoming(sink_inputs, index);
        let existing = find_position(&self.stored, index);
        proof {
            lemma_handled_wf(old(self)@, index, operation, raw_views(sink_inputs@), now);
        }
        match operation {
            Operation::New => {
                let raw = match arrived {
                    Some(r) => sink_inputs[r].clone(),
                    None => {
                        return Err(SelectorError::NotEnumerated);
                    },
                };
                let newcomer = Source::from_sink_input(raw, self.next_id, now);
                let returning = match &self.selected {
                    Some(s) => if !s.available() && s.compare(&newcomer).is_similar_enough() {
                        Some(s.clone())
                    } else {
                        None
                    },
                    None => None,
                };
                match returning {
                    Some(mut selected) => {
                        selected.update(&newcomer, now);
                        self.write_through(&selected);
                    },
                    None => {
                        if self.next_id == u64::MAX {
                            return Err(SelectorError::Exhausted);
                        }
                        let ghost before = self.stored@;
                        self.stored.push(newcomer);
                        self.next_id = self.next_id + 1;
                        proof {
                            assert(views(self.stored@) =~= views(before).push(newcomer@));
                            assert(newcomer@ == SourceView { id: old(self)@.next_id, ..newcomer@ });
                        }
                    },
                }
            },
            Operation::Changed => {
                let p = match existing {
                    Some(p) => p,
                    None => {
                        return Err(SelectorError::UnknownSource);
                    },
                };
                let raw = match arrived {
                    Some(r) => sink_inputs[r].clone(),
                    None => {
                        return Err(SelectorError::NotEnumerated);
                    },
                };
                let mut changed = self.stored[p].clone();
                let newcomer = Source::from_sink_input(raw, changed.id(), now);
                changed.update(&newcomer, now);
                self.write_through(&changed);
            },
            Operation::Removed => {
                let p = match existing {
                    Some(p) => p,
                    None => {
                        return Err(SelectorError::UnknownSource);
                    },
                };
                let mut gone = self.stored[p].clone();
                gone.remove();
                self.write_through(&gone);
            },
        }
        self.prune(now);
        Ok(())
    }

    /// Marks the selected source as gone, as its removal from the audio
    /// server would. Without a selection nothing changes.
    pub fn abandon_selected(&mut self)
        requires
            old(self)@.wf(),
        ensures
            final(self)@.wf(),
            final(self)@ == match old(self)@.selected {
                Some(s) => old(self)@.with_source(s.removed()),
                None => old(self)@,
            },
    {
        let gone = match &self.selected {
            Some(s) => {
                let mut gone = s.clone();
                gone.remove();
                Some(gone)
            },
            None => None,
        };
        match gone {
            Some(gone) => {
                proof {
                    lemma_with_source_wf(old(self)@, gone@);
                }
                self.write_through(&gone);
            },
            None => {},
        }
    }
}

/// A change to one source keeps the selector well formed.
pub proof fn lemma_with_source_wf(s: SelectorView, v: SourceView)
    requires
        s.wf(),
    ensures
        s.with_source(v).wf(),
{
    let t = s.with_source(v);
    assert forall|i: int| 0 <= i < t.catalog.len() implies (#[trigger] t.catalog[i]).id
        == s.catalog[i].id by {}
    assert forall|i: int, j: int| 0 <= i < j < t.catalog.len() implies (#[trigger] t.catalog[i]).id
        != (#[trigger] t.catalog[j]).id by {
        assert(t.catalog[i].id == s.catalog[i].id);
        assert(t.catalog[j].id == s.catalog[j].id);
    }
}

/// A new source keeps the selector well formed while an identity is left.
pub proof fn lemma_inserted_wf(s: SelectorView, v: SourceView)
    requires
        s.wf(),
        s.next_id < u64::MAX,
    ensures
        s.inserted(v).wf(),
{
    let t = s.inserted(v);
    assert forall|i: int| 0 <= i < t.catalog.len() implies (#[trigger] t.catalog[i]).id
        < t.next_id by {
        if i < s.catalog.len() {
            assert(t.catalog[i] == s.catalog[i]);
        }
    }
    assert forall|i: int, j: int| 0 <= i < j < t.catalog.len() implies (#[trigger] t.catalog[i]).id
        != (#[trigger] t.catalog[j]).id by {
        assert(t.catalog[i] == s.catalog[i]);
        if j < s.catalog.len() {
            assert(t.catalog[j] == s.catalog[j]);
        }
    }
    if s.selected is Some {
        let sel = s.selected->0;
        assert forall|i: int| 0 <= i < t.catalog.len() && (#[trigger] t.catalog[i]).id
            == sel.id implies t.catalog[i] == sel by {
            if i < s.catalog.len() {
                assert(t.catalog[i] == s.catalog[i]);
            }
        }
    }
}

/// The sources that stay after pruning stand in the catalog, in the same
/// order: source `i` of the pruned catalog is source `origin(i)` of the old.
pub proof fn lemma_pruned_origin(catalog: Seq<SourceView>, now: u64) -> (origin: Seq<int>)
    ensures
        origin.len() == catalog.filter(alive(now)).len(),
        forall|i: int|
            0 <= i < origin.len() ==> 0 <= #[trigger] origin[i] < catalog.len() && catalog.filter(
                alive(now),
            )[i] == catalog[origin[i]],
        forall|i: int, j: int| 0 <= i < j < origin.len() ==> #[trigger] origin[i] < #[trigger] origin[j],
    decreases catalog.len(),
{
    reveal(Seq::filter);
    if catalog.len() == 0 {
        Seq::empty()
    } else {
        let front = catalog.drop_last();
        let before = lemma_pruned_origin(front, now);
        if alive(now)(catalog.last()) {
            before.push(catalog.len() - 1)
        } else {
            before
        }
    }
}

/// Pruning keeps the selector well formed.
pub proof fn lemma_pruned_wf(s: SelectorView, now: u64)
    requires
        s.wf(),
    ensures
        s.pruned(now).wf(),
{
    let t = s.pruned(now);
    let origin = lemma_pruned_origin(s.catalog, now);
    assert forall|i: int| 0 <= i < t.catalog.len() implies (#[trigger] t.catalog[i]).id
        < t.next_id by {
        assert(t.catalog[i] == s.catalog[origin[i]]);
    }
    assert forall|i: int, j: int| 0 <= i < j < t.catalog.len() implies (#[trigger] t.catalog[i]).id
        != (#[trigger] t.catalog[j]).id by {
        assert(t.catalog[i] == s.catalog[origin[i]]);
        assert(t.catalog[j] == s.catalog[origin[j]]);
        assert(origin[i] < origin[j]);
    }
    if s.selected is Some {
        let sel = s.selected->0;
        assert forall|i: int| 0 <= i < t.catalog.len() && (#[trigger] t.catalog[i]).id
            == sel.id implies t.catalog[i] == sel by {
            assert(t.catalog[i] == s.catalog[origin[i]]);
        }
    }
}

/// The position of an index is that of the first source that has it.
pub proof fn lemma_position(catalog: Seq<SourceView>, index: u32)
    ensures
        position(catalog, index) matches Some(p) ==> 0 <= p < catalog.len() && catalog[p].index()
            == index,
    decreases catalog.len(),
{
    if catalog.len() > 0 && catalog[0].index() != index {
        lemma_position(catalog.drop_first(), index);
    }
}

/// Whatever an event does, it keeps the selector well formed.
pub proof fn lemma_handled_wf(
    s: SelectorView,
    index: u32,
    operation: Operation,
    raws: Seq<SinkInputView>,
    now: u64,
)
    requires
        s.wf(),
    ensures
        s.handled(index, operation, raws, now) matches Ok(next) ==> next.wf(),
{
    match s.handled(index, operation, raws, now) {
        Ok(next) => {
            lemma_position(s.catalog, index);
            match operation {
                Operation::New => {
                    let newcomer = SourceView::derived(incoming(raws, index)->0, s.next_id, now);
                    if s.reconciles(newcomer) {
                        let changed = s.selected->0.updated(newcomer, now);
                        lemma_with_source_wf(s, changed);
                        lemma_pruned_wf(s.with_source(changed), now);
                    } else {
                        lemma_inserted_wf(s, newcomer);
                        lemma_pruned_wf(s.inserted(newcomer), now);
                    }
                },
                Operation::Changed => {
                    let existing = s.catalog[position(s.catalog, index)->0];
                    let newcomer = SourceView::derived(incoming(raws, index)->0, existing.id, now);
                    let changed = existing.updated(newcomer, now);
                    lemma_with_source_wf(s, changed);
                    lemma_pruned_wf(s.with_source(changed), now);
                },
                Operation::Removed => {
                    let gone = s.catalog[position(s.catalog, index)->0].removed();
                    lemma_with_source_wf(s, gone);
                    lemma_pruned_wf(s.with_source(gone), now);
                },
            }
        },
        Err(_) => {},
    }
}

/// The holder of an identity is the first source that has it, and there is
/// none exactly where no source has it.
pub proof fn lemma_holder(catalog: Seq<SourceView>, id: u64)
    ensures
        holder(catalog, id) matches Some(p) ==> 0 <= p < catalog.len() && catalog[p].id == id,
        holder(catalog, id) is None ==> forall|i: int|
            0 <= i < catalog.len() ==> (#[trigger] catalog[i]).id != id,
    decreases catalog.len(),
{
    if catalog.len() > 0 && catalog[0].id != id {
        let rest = catalog.drop_first();
        lemma_holder(rest, id);
        if holder(rest, id) is None {
            assert forall|i: int| 0 <= i < catalog.len() implies (#[trigger] catalog[i]).id != id by {
                if i > 0 {
                    assert(catalog[i] == rest[i - 1]);
                }
            }
        }
    }
}

} // verus!
