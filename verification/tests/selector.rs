use pulseshitter::selector::{Operation, SelectorError, SourceSelector};
use pulseshitter::sink_input::{Property, SinkInput};
use pulseshitter::source::Source;

fn raw(name: &str, index: u32, app: &str) -> SinkInput {
    SinkInput {
        name: name.to_string(),
        index,
        sink: 0,
        volume: 1.0f32.to_bits(),
        props: vec![Property {
            key: "application.process.binary".to_string(),
            value: app.to_string(),
        }],
    }
}

fn names(sources: &[Source]) -> Vec<String> {
    sources.iter().map(|s| s.name()).collect()
}

#[test]
fn new_selector_lists_the_enumeration() {
    let selector = SourceSelector::new(&vec![raw("Foo One", 4, "a"), raw("Bar Two", 9, "b")], false, 10);
    let listed = selector.sources(10);
    assert_eq!(names(&listed), vec!["Foo One", "Bar Two"]);
    assert_eq!(listed[0].id(), 0);
    assert_eq!(listed[1].id(), 1);
    assert_eq!(listed[0].index(), 4);
    assert_eq!(listed[1].age(), 10);
    assert!(selector.current_source().is_none());
    assert!(selector.selected_source().is_none());
}

#[test]
fn select_sets_current_and_selected_and_clears_both() {
    let mut selector = SourceSelector::new(&vec![raw("Foo One", 4, "a")], false, 0);
    let source = selector.sources(0).remove(0);
    selector.select(Some(source));
    assert_eq!(selector.current_source().unwrap().id(), 0);
    assert_eq!(selector.selected_source().unwrap().id(), 0);
    selector.select(None);
    assert!(selector.current_source().is_none());
    assert!(selector.selected_source().is_none());
}

#[test]
fn select_takes_the_state_that_the_catalog_has() {
    let mut selector = SourceSelector::new(&vec![raw("Foo One", 4, "a")], false, 0);
    let stale = selector.sources(0).remove(0);
    selector
        .handle_sink_input_event(4, Operation::Changed, &vec![raw("Foo Two", 4, "a")], 5)
        .unwrap();
    selector.select(Some(stale));
    let selected = selector.selected_source().unwrap();
    assert_eq!(selected.name(), "Foo Two");
    assert_eq!(selected.age(), 5);
}

#[test]
fn returning_application_keeps_its_source() {
    let mut selector = SourceSelector::new(&vec![raw("Foo", 1, "app")], false, 0);
    let source = selector.sources(0).remove(0);
    let id = source.id();
    selector.select(Some(source));
    selector.handle_sink_input_event(1, Operation::Removed, &vec![], 1_000).unwrap();
    assert!(selector.current_source().is_none());
    let gone = selector.selected_source().unwrap();
    assert_eq!(gone.id(), id);
    assert!(!gone.available());
    assert_eq!(gone.age(), 0);

    selector
        .handle_sink_input_event(2, Operation::New, &vec![raw("Foo Bar", 2, "app")], 2_000)
        .unwrap();
    let current = selector.current_source().unwrap();
    assert_eq!(current.id(), id);
    assert_eq!(current.index(), 2);
    assert_eq!(current.name(), "Foo Bar");
    assert_eq!(current.application(), "app");
    assert!(current.available());
    assert_eq!(current.age(), 2_000);
    let listed = selector.sources(2_000);
    assert_eq!(listed.len(), 1);
    assert_eq!(listed[0].id(), id);
    assert_eq!(listed[0].index(), 2);
}

#[test]
fn other_application_never_takes_over_a_source() {
    let mut selector = SourceSelector::new(&vec![raw("Foo", 1, "app")], false, 0);
    let source = selector.sources(0).remove(0);
    selector.select(Some(source));
    selector.handle_sink_input_event(1, Operation::Removed, &vec![], 1_000).unwrap();
    selector
        .handle_sink_input_event(2, Operation::New, &vec![raw("Foo Bar", 2, "other")], 2_000)
        .unwrap();
    assert!(selector.current_source().is_none());
    let selected = selector.selected_source().unwrap();
    assert_eq!(selected.id(), 0);
    assert!(!selected.available());
    assert_eq!(selected.index(), 1);
    let listed = selector.sources(2_000);
    assert_eq!(listed.len(), 2);
    assert_eq!(listed[0].id(), 1);
    assert_eq!(listed[0].application(), "other");
    assert_eq!(listed[1].id(), 0);
}

#[test]
fn dissimilar_name_of_one_application_is_a_new_source() {
    let mut selector = SourceSelector::new(&vec![raw("Foo", 1, "app")], false, 0);
    let source = selector.sources(0).remove(0);
    selector.select(Some(source));
    selector.handle_sink_input_event(1, Operation::Removed, &vec![], 1_000).unwrap();
    selector
        .handle_sink_input_event(2, Operation::New, &vec![raw("Zzz Qqq", 2, "app")], 2_000)
        .unwrap();
    assert!(selector.current_source().is_none());
    assert_eq!(selector.sources(2_000).len(), 2);
}

#[test]
fn new_source_is_not_taken_for_a_selected_source_that_is_there() {
    let mut selector = SourceSelector::new(&vec![raw("Foo", 1, "app")], false, 0);
    let source = selector.sources(0).remove(0);
    selector.select(Some(source));
    let both = vec![raw("Foo", 1, "app"), raw("Foo Bar", 2, "app")];
    selector.handle_sink_input_event(2, Operation::New, &both, 2_000).unwrap();
    assert_eq!(selector.current_source().unwrap().index(), 1);
    let listed = selector.sources(2_000);
    assert_eq!(listed.len(), 2);
    assert_eq!(listed[0].name(), "Foo Bar");
    assert_eq!(listed[0].id(), 1);
}

#[test]
fn dead_sources_leave_the_list() {
    let mut selector = SourceSelector::new(&vec![raw("Foo One", 1, "a"), raw("Bar Two", 2, "b")], false, 0);
    selector.handle_sink_input_event(1, Operation::Removed, &vec![raw("Bar Two", 2, "b")], 10).unwrap();
    assert_eq!(names(&selector.sources(59_999)), vec!["Foo One", "Bar Two"]);
    assert_eq!(names(&selector.sources(60_000)), vec!["Bar Two"]);
    assert_eq!(names(&selector.sources(u64::MAX)), vec!["Bar Two"]);
}

#[test]
fn dead_sources_leave_the_catalog_on_the_next_event() {
    let mut selector = SourceSelector::new(&vec![raw("Foo One", 1, "a"), raw("Bar Two", 2, "b")], false, 0);
    selector.handle_sink_input_event(1, Operation::Removed, &vec![], 10).unwrap();
    selector
        .handle_sink_input_event(2, Operation::Changed, &vec![raw("Bar Two", 2, "b")], 70_000)
        .unwrap();
    // The list at an earlier time shows that the source has left for good.
    assert_eq!(names(&selector.sources(0)), vec!["Bar Two"]);
}

#[test]
fn source_that_was_not_updated_for_long_dies_as_it_goes() {
    let mut selector = SourceSelector::new(&vec![raw("Foo One", 1, "a")], false, 0);
    selector.handle_sink_input_event(1, Operation::Removed, &vec![], 60_000).unwrap();
    assert!(selector.sources(0).is_empty());
}

#[test]
fn list_is_ordered_by_last_update() {
    let mut selector = SourceSelector::new(
        &vec![raw("Foo One", 1, "a"), raw("Bar Two", 2, "b"), raw("Baz Three", 3, "c")],
        false,
        0,
    );
    assert_eq!(names(&selector.sources(0)), vec!["Foo One", "Bar Two", "Baz Three"]);
    selector
        .handle_sink_input_event(2, Operation::Changed, &vec![raw("Bar Two", 2, "b")], 500)
        .unwrap();
    assert_eq!(names(&selector.sources(500)), vec!["Bar Two", "Foo One", "Baz Three"]);
    selector
        .handle_sink_input_event(4, Operation::New, &vec![raw("New Four", 4, "d")], 700)
        .unwrap();
    assert_eq!(names(&selector.sources(700)), vec!["New Four", "Bar Two", "Foo One", "Baz Three"]);
}

#[test]
fn spotify_is_listed_only_where_allowed() {
    let raws = vec![raw("Spotify Premium", 1, "spotify"), raw("Some Song", 2, "spotify")];
    let raws = vec![
        SinkInput { name: "Spotify".to_string(), ..raws[0].clone() },
        raws[1].clone(),
    ];
    // "Spotify" alone scores two: one for its case, one for its word.
    let hidden = SourceSelector::new(&raws, false, 0);
    assert_eq!(names(&hidden.sources(0)), vec!["Some Song"]);
    let shown = SourceSelector::new(&raws, true, 0);
    assert_eq!(names(&shown.sources(0)), vec!["Spotify", "Some Song"]);
}

#[test]
fn changed_updates_the_source_with_that_index() {
    let mut selector = SourceSelector::new(&vec![raw("Foo One", 1, "a")], false, 0);
    let source = selector.sources(0).remove(0);
    selector.select(Some(source));
    let mut changed = raw("Foo Two", 1, "b");
    changed.volume = 0.5f32.to_bits();
    changed.sink = 3;
    selector.handle_sink_input_event(1, Operation::Changed, &vec![changed], 40).unwrap();
    for source in [selector.sources(40).remove(0), selector.current_source().unwrap()] {
        assert_eq!(source.id(), 0);
        assert_eq!(source.name(), "Foo Two");
        assert_eq!(source.application(), "a");
        assert_eq!(f32::from_bits(source.volume()), 0.5);
        assert_eq!(source.sink_input().sink, 3);
        assert_eq!(source.age(), 40);
    }
}

#[test]
fn removed_marks_the_source_and_keeps_it() {
    let mut selector = SourceSelector::new(&vec![raw("Foo One", 1, "a")], false, 0);
    selector.handle_sink_input_event(1, Operation::Removed, &vec![], 40).unwrap();
    let listed = selector.sources(40);
    assert_eq!(listed.len(), 1);
    assert!(!listed[0].available());
    assert_eq!(listed[0].age(), 0);
}

#[test]
fn events_that_cannot_be_applied_change_nothing() {
    let mut selector = SourceSelector::new(&vec![raw("Foo One", 1, "a")], false, 0);
    assert_eq!(
        selector.handle_sink_input_event(2, Operation::New, &vec![raw("Foo One", 1, "a")], 5),
        Err(SelectorError::NotEnumerated)
    );
    assert_eq!(
        selector.handle_sink_input_event(2, Operation::Changed, &vec![raw("Bar", 2, "a")], 5),
        Err(SelectorError::UnknownSource)
    );
    assert_eq!(
        selector.handle_sink_input_event(1, Operation::Changed, &vec![], 5),
        Err(SelectorError::NotEnumerated)
    );
    assert_eq!(
        selector.handle_sink_input_event(2, Operation::Removed, &vec![], 5),
        Err(SelectorError::UnknownSource)
    );
    let listed = selector.sources(5);
    assert_eq!(listed.len(), 1);
    assert_eq!(listed[0].age(), 0);
    assert!(listed[0].available());
}

#[test]
fn identities_run_out_at_the_last_number() {
    let mut selector = SourceSelector::new(&vec![], false, 0);
    let foreign = Source::from_sink_input(raw("Foo One", 1, "a"), u64::MAX - 1, 0);
    selector.select(Some(foreign));
    assert_eq!(
        selector.handle_sink_input_event(2, Operation::New, &vec![raw("Bar Two", 2, "b")], 5),
        Err(SelectorError::Exhausted)
    );
    assert!(selector.sources(5).is_empty());
    assert_eq!(selector.selected_source().unwrap().id(), u64::MAX - 1);
}

#[test]
fn foreign_identity_is_never_handed_out_again() {
    let mut selector = SourceSelector::new(&vec![], false, 0);
    let foreign = Source::from_sink_input(raw("Foo One", 1, "a"), 7, 0);
    selector.select(Some(foreign));
    selector
        .handle_sink_input_event(2, Operation::New, &vec![raw("Bar Two", 2, "b")], 5)
        .unwrap();
    assert_eq!(selector.sources(5)[0].id(), 8);
}

#[test]
fn abandoned_selection_waits_for_its_application() {
    let mut selector = SourceSelector::new(&vec![raw("Foo", 1, "app")], false, 0);
    let source = selector.sources(0).remove(0);
    selector.select(Some(source));
    selector.abandon_selected();
    assert!(selector.current_source().is_none());
    assert!(!selector.selected_source().unwrap().available());
    assert!(!selector.sources(0)[0].available());
    selector
        .handle_sink_input_event(5, Operation::New, &vec![raw("Foo", 5, "app")], 9)
        .unwrap();
    assert_eq!(selector.current_source().unwrap().index(), 5);
    assert_eq!(selector.current_source().unwrap().id(), 0);
}
