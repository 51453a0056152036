//! What holds of the selector, the system and the meter whatever the audio
//! server reports.

use vstd::prelude::*;
use crate::meter::{
    falls_to, greater, level, louder, magnitude, not_a_number, peak, silence, MeterView,
};
use crate::order::{descending_order, lemma_descending_order_is_stable};
use crate::selector::{
    ages, alive, incoming, is_spotify, lemma_handled_wf, lemma_position, lemma_pruned_origin,
    position, shown, Operation, SelectorError, SelectorView,
};
use crate::system::{stream_after, StreamCommand};
use crate::sink_input::SinkInputView;
use crate::source::{SourceView, MAX_LIFESPAN, SIMILARITY_CEILING, SIMILARITY_THRESHOLD};
use crate::text::jaro_bits;

verus! {

/// A source keeps its identity when its application comes back.
///
/// While the selected source is unavailable, a new sink input of the same
/// application whose name is the source's name, or similar enough to it,
/// becomes that source: the selected source keeps its identity, kind and
/// application, takes the sink input, is available and counts as updated at
/// `now`. No identity is handed out and the catalog gains no entry; where it
/// held the source, it holds it still, in its new state.
pub proof fn lemma_returning_source_keeps_identity(
    s: SelectorView,
    index: u32,
    raws: Seq<SinkInputView>,
    now: u64,
)
    requires
        s.wf(),
        s.selected is Some,
        !s.selected->0.available,
        incoming(raws, index) is Some,
        ({
            let old = s.selected->0;
            let new = SourceView::derived(incoming(raws, index)->0, s.next_id, now);
            &&& old.application == new.application
            &&& old.name == new.name || SIMILARITY_THRESHOLD < jaro_bits(old.name, new.name)
                <= SIMILARITY_CEILING
        }),
    ensures
        s.handled(index, Operation::New, raws, now) is Ok,
        ({
            let t = s.handled(index, Operation::New, raws, now)->Ok_0;
            let old = s.selected->0;
            &&& t.wf()
            &&& t.selected is Some
            &&& t.selected->0.id == old.id
            &&& t.selected->0.kind == old.kind
            &&& t.selected->0.application == old.application
            &&& t.selected->0.sink_input == incoming(raws, index)->0
            &&& t.selected->0.available
            &&& t.selected->0.age == now
            &&& t.current() == t.selected
            &&& t.next_id == s.next_id
            &&& t.catalog.len() <= s.catalog.len()
            &&& forall|i: int|
                0 <= i < t.catalog.len() ==> exists|j: int|
                    0 <= j < s.catalog.len() && s.catalog[j].id == (#[trigger] t.catalog[i]).id
            &&& forall|j: int|
                0 <= j < s.catalog.len() && (#[trigger] s.catalog[j]).id == old.id
                    ==> t.catalog.contains(t.selected->0)
        }),
{
    let old = s.selected->0;
    let new = SourceView::derived(incoming(raws, index)->0, s.next_id, now);
    assert(s.reconciles(new));
    let changed = old.updated(new, now);
    let mid = s.with_source(changed);
    let t = mid.pruned(now);
    lemma_handled_wf(s, index, Operation::New, raws, now);
    let origin = lemma_pruned_origin(mid.catalog, now);
    assert forall|i: int| 0 <= i < t.catalog.len() implies exists|j: int|
        0 <= j < s.catalog.len() && s.catalog[j].id == (#[trigger] t.catalog[i]).id by {
        assert(t.catalog[i] == mid.catalog[origin[i]]);
        assert(s.catalog[origin[i]].id == mid.catalog[origin[i]].id);
    }
    assert forall|j: int| 0 <= j < s.catalog.len() && (#[trigger] s.catalog[j]).id
        == old.id implies t.catalog.contains(t.selected->0) by {
        assert(mid.catalog[j] == changed);
        assert(alive(now)(changed));
        mid.catalog.lemma_filter_contains(alive(now), j);
    }
}

/// A sink input of another application never passes for the selected source.
///
/// Where the new sink input differs from the selected source in application,
/// and has neither its index nor its name, the selection stays as it was and
/// the newcomer enters the catalog under an identity of its own; every other
/// source of the catalog is one that was there before, unchanged.
pub proof fn lemma_other_application_stays_apart(
    s: SelectorView,
    index: u32,
    raws: Seq<SinkInputView>,
    now: u64,
)
    requires
        s.wf(),
        s.selected is Some,
        incoming(raws, index) is Some,
        ({
            let old = s.selected->0;
            let new = SourceView::derived(incoming(raws, index)->0, s.next_id, now);
            &&& old.application != new.application
            &&& old.index() != new.index()
            &&& old.name != new.name
        }),
    ensures
        ({
            let new = SourceView::derived(incoming(raws, index)->0, s.next_id, now);
            &&& !s.reconciles(new)
            &&& s.handled(index, Operation::New, raws, now) == if s.next_id == u64::MAX {
                Err::<SelectorView, SelectorError>(SelectorError::Exhausted)
            } else {
                Ok(s.inserted(new).pruned(now))
            }
            &&& s.handled(index, Operation::New, raws, now) matches Ok(t) ==> {
                &&& t.selected == s.selected
                &&& new.id != s.selected->0.id
                &&& forall|i: int|
                    0 <= i < t.catalog.len() ==> (#[trigger] t.catalog[i]) == new
                        || s.catalog.contains(t.catalog[i])
            }
        }),
{
    let new = SourceView::derived(incoming(raws, index)->0, s.next_id, now);
    if s.next_id < u64::MAX {
        let mid = s.inserted(new);
        let t = mid.pruned(now);
        let origin = lemma_pruned_origin(mid.catalog, now);
        assert forall|i: int| 0 <= i < t.catalog.len() implies (#[trigger] t.catalog[i]) == new
            || s.catalog.contains(t.catalog[i]) by {
            assert(t.catalog[i] == mid.catalog[origin[i]]);
            if origin[i] < s.catalog.len() {
                assert(mid.catalog[origin[i]] == s.catalog[origin[i]]);
            }
        }
    }
}

/// No dead source is listed.
pub proof fn lemma_dead_sources_are_not_listed(s: SelectorView, now: u64, i: int)
    requires
        0 <= i < s.listed(now).len(),
    ensures
        !s.listed(now)[i].is_dead(now),
        s.catalog.contains(s.listed(now)[i]),
{
    let visible = s.visible(now);
    let order = descending_order(ages(visible));
    lemma_descending_order_is_stable(ages(visible));
    let k = order[i];
    assert(s.listed(now)[i] == visible[k]);
    s.catalog.lemma_filter_pred(shown(s.allow_spotify, now), k);
    assert(visible.contains(visible[k]));
    s.catalog.lemma_filter_contains_rev(shown(s.allow_spotify, now), visible[k]);
}

/// A source that is dead is absent from the list, whatever else it holds.
pub proof fn lemma_dead_source_is_absent(s: SelectorView, now: u64, dead: SourceView)
    requires
        !dead.available,
        dead.age + MAX_LIFESPAN <= now,
    ensures
        !s.listed(now).contains(dead),
{
    if s.listed(now).contains(dead) {
        let i = choose|i: int| 0 <= i < s.listed(now).len() && s.listed(now)[i] == dead;
        lemma_dead_sources_are_not_listed(s, now, i);
    }
}

/// Every source of the catalog that is available, or was updated less than
/// [`MAX_LIFESPAN`] ago, is listed, unless its name filters it out.
pub proof fn lemma_live_sources_are_listed(s: SelectorView, now: u64, i: int)
    requires
        0 <= i < s.catalog.len(),
        s.catalog[i].available || now < s.catalog[i].age + MAX_LIFESPAN,
        s.allow_spotify || !is_spotify(s.catalog[i].name),
    ensures
        !s.catalog[i].is_dead(now),
        s.listed(now).contains(s.catalog[i]),
{
    let test = shown(s.allow_spotify, now);
    let visible = s.visible(now);
    let order = descending_order(ages(visible));
    lemma_descending_order_is_stable(ages(visible));
    assert(test(s.catalog[i]));
    s.catalog.lemma_filter_contains(test, i);
    let k = choose|k: int| 0 <= k < visible.len() && visible[k] == s.catalog[i];
    assert(order.contains(k));
    let j = choose|j: int| 0 <= j < order.len() && order[j] == k;
    assert(s.listed(now)[j] == s.catalog[i]);
}

/// The restart of the selected application is followed through.
///
/// The selected source is captured on one sink input. The audio server
/// removes that sink input and later reports a new one, of the same
/// application and under the same name or one similar enough. Then the
/// removal leaves nothing to capture, so that the stream is closed; and the
/// new sink input makes the same source current again, so that a stream is
/// opened on it.
pub proof fn lemma_restart_is_followed(
    s: SelectorView,
    gone: Seq<SinkInputView>,
    back: Seq<SinkInputView>,
    index: u32,
    removed_at: u64,
    back_at: u64,
)
    requires
        s.wf(),
        s.selected is Some,
        s.selected->0.available,
        position(s.catalog, s.selected->0.index()) matches Some(p) && s.catalog[p].id
            == s.selected->0.id,
        incoming(back, index) is Some,
        ({
            let old = s.selected->0;
            let new = SourceView::derived(incoming(back, index)->0, s.next_id, back_at);
            &&& old.application == new.application
            &&& old.name == new.name || SIMILARITY_THRESHOLD < jaro_bits(old.name, new.name)
                <= SIMILARITY_CEILING
        }),
    ensures
        s.handled(s.selected->0.index(), Operation::Removed, gone, removed_at) is Ok,
        ({
            let old = s.selected->0;
            let between = s.handled(old.index(), Operation::Removed, gone, removed_at)->Ok_0;
            &&& between.current() is None
            &&& between.selected is Some
            &&& between.selected->0.id == old.id
            &&& stream_after(s.current(), between.current()) == StreamCommand::Close
            &&& between.handled(index, Operation::New, back, back_at) is Ok
            &&& ({
                let after = between.handled(index, Operation::New, back, back_at)->Ok_0;
                let raw = incoming(back, index)->0;
                &&& after.current() is Some
                &&& after.current()->0.id == old.id
                &&& after.current()->0.application == old.application
                &&& after.current()->0.sink_input == raw
                &&& stream_after(between.current(), after.current()) == StreamCommand::Open {
                    index: raw.index,
                    sink: raw.sink,
                }
            })
        }),
{
    let old = s.selected->0;
    let p = position(s.catalog, old.index())->0;
    lemma_position(s.catalog, old.index());
    assert(s.catalog[p] == old);
    let between = s.with_source(old.removed()).pruned(removed_at);
    lemma_handled_wf(s, old.index(), Operation::Removed, gone, removed_at);
    assert(between.selected == Some(old.removed()));
    let new = SourceView::derived(incoming(back, index)->0, between.next_id, back_at);
    assert(between.reconciles(new));
    lemma_returning_source_keeps_identity(between, index, back, back_at);
}

/// The peak of a window of numbers is the largest magnitude in it, and zero
/// for an empty window.
pub proof fn lemma_peak_is_largest(window: Seq<u32>)
    requires
        forall|i: int| 0 <= i < window.len() ==> !not_a_number(#[trigger] window[i]),
    ensures
        !not_a_number(peak(window)),
        peak(window) == magnitude(peak(window)),
        forall|i: int| 0 <= i < window.len() ==> magnitude(#[trigger] window[i]) <= peak(window),
        window.len() == 0 ==> peak(window) == 0,
        window.len() > 0 ==> exists|i: int|
            0 <= i < window.len() && peak(window) == magnitude(#[trigger] window[i]),
    decreases window.len(),
{
    if window.len() > 0 {
        let front = window.drop_last();
        lemma_peak_is_largest(front);
        let last = magnitude(window.last());
        assert(!not_a_number(window.last()));
        assert(magnitude(last) == last);
        assert(peak(window) == louder(peak(front), last));
        assert forall|i: int| 0 <= i < window.len() implies magnitude(#[trigger] window[i])
            <= peak(window) by {
            if i < front.len() {
                assert(front[i] == window[i]);
            }
        }
        if greater(peak(front), last) {
            let i = choose|i: int| 0 <= i < front.len() && peak(front) == magnitude(#[trigger] front[i]);
            assert(front[i] == window[i]);
        } else {
            assert(peak(window) == magnitude(window[window.len() - 1]));
        }
    }
}

/// The peak of a window is a magnitude, whatever the window holds: its sign
/// bit is clear.
pub proof fn lemma_peak_is_magnitude(window: Seq<u32>)
    ensures
        peak(window) == magnitude(peak(window)),
    decreases window.len(),
{
    if window.len() > 0 {
        lemma_peak_is_magnitude(window.drop_last());
        let last = magnitude(window.last());
        assert(magnitude(last) == last);
    }
}

/// A level stays a level: a step leaves a number that is not negative.
pub proof fn lemma_level_stays_a_level(meter: MeterView, released: u32)
    requires
        level(meter.value),
    ensures
        level(meter.processed(released).value),
{
    lemma_peak_is_magnitude(meter.window);
}

/// The level never rises but to a peak.
///
/// Where the peak of the window is not greater than the level, a step
/// leaves a level that is not above the one before and not below zero,
/// whatever release is handed in: the release itself where it is such a
/// level, else the level before.
pub proof fn lemma_release_never_raises(meter: MeterView, released: u32)
    requires
        level(meter.value),
        !greater(peak(meter.window), meter.value),
    ensures
        level(meter.processed(released).value),
        meter.processed(released).value <= meter.value,
        !greater(meter.processed(released).value, meter.value),
        meter.processed(released).value == if falls_to(meter.value, released) {
            released
        } else {
            meter.value
        },
        meter.processed(released).since_peak == meter.since_peak,
        meter.processed(released).window == meter.window,
{
}

/// The level stays within the bound of the samples.
///
/// Where every sample of the window is a number of magnitude at most
/// `bound`, and so is the level, a step leaves the level a number between
/// zero and `bound`, whatever release is handed in.
pub proof fn lemma_level_is_bounded(meter: MeterView, released: u32, bound: u32)
    requires
        level(bound),
        level(meter.value),
        meter.value <= bound,
        forall|i: int|
            0 <= i < meter.window.len() ==> magnitude(#[trigger] meter.window[i]) <= bound,
    ensures
        level(meter.processed(released).value),
        meter.processed(released).value <= bound,
{
    assert forall|i: int| 0 <= i < meter.window.len() implies !not_a_number(
        #[trigger] meter.window[i],
    ) by {}
    lemma_peak_is_largest(meter.window);
}

/// In silence the level only falls.
///
/// While every sample of the window is zero, a step never raises the
/// level: it becomes the released level that was handed in, if that is a
/// level not above the one before, and stays where it is if not. How far it
/// falls is the release curve's to say.
pub proof fn lemma_silence_releases(meter: MeterView, released: u32)
    requires
        forall|i: int| 0 <= i < meter.window.len() ==> magnitude(#[trigger] meter.window[i]) == 0,
        level(meter.value),
    ensures
        peak(meter.window) == 0,
        level(meter.processed(released).value),
        meter.processed(released).value <= meter.value,
        meter.processed(released).value == if falls_to(meter.value, released) {
            released
        } else {
            meter.value
        },
        meter.processed(released).since_peak == meter.since_peak,
{
    lemma_peak_is_largest(meter.window);
}

/// A peak raises the level at once: to the magnitude of the loudest sample
/// of the window, whatever the release would have been.
pub proof fn lemma_attack_is_instant(meter: MeterView, released: u32)
    requires
        meter.window.len() > 0,
        forall|i: int| 0 <= i < meter.window.len() ==> !not_a_number(#[trigger] meter.window[i]),
        greater(peak(meter.window), meter.value),
    ensures
        meter.processed(released).value == peak(meter.window),
        meter.processed(released).since_peak == 0,
        forall|i: int|
            0 <= i < meter.window.len() ==> magnitude(#[trigger] meter.window[i])
                <= meter.processed(released).value,
        exists|i: int|
            0 <= i < meter.window.len() && meter.processed(released).value == magnitude(
                #[trigger] meter.window[i],
            ),
{
    lemma_peak_is_largest(meter.window);
}

/// Silence that is as long as the window leaves nothing but silence in it.
pub proof fn lemma_drained_window_is_silent(meter: MeterView, amount: nat)
    requires
        amount >= meter.window.len(),
    ensures
        meter.drained(amount).window == silence(meter.window.len()),
        peak(meter.drained(amount).window) == 0,
        meter.drained(amount).since_peak >= meter.since_peak,
{
    assert(meter.drained(amount).window =~= silence(meter.window.len()));
    lemma_peak_is_largest(silence(meter.window.len()));
}

} // verus!
