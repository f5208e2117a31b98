use rumos::selector::{select_devices, DeviceSelector, SourceItem};

fn device(name: &str) -> SourceItem {
    SourceItem::Device { name: Some(name.to_string()) }
}

fn three_named_devices() -> Vec<SourceItem> {
    vec![device("A"), device("B"), device("C")]
}

#[test]
fn all_keeps_everything_in_source_order() {
    let items = vec![
        device("A"),
        SourceItem::Unavailable,
        SourceItem::Device { name: None },
    ];
    assert_eq!(select_devices(&DeviceSelector::All, &items), vec![0, 1, 2]);
}

#[test]
fn by_name_empty_selects_nothing() {
    let items = three_named_devices();
    let selected = select_devices(&DeviceSelector::ByName(Vec::new()), &items);
    assert_eq!(selected.len(), 0);
}

#[test]
fn by_name_covering_every_name_selects_the_same_as_all() {
    let items = three_named_devices();
    let names = vec!["A".to_string(), "B".to_string(), "C".to_string()];
    assert_eq!(
        select_devices(&DeviceSelector::ByName(names), &items),
        select_devices(&DeviceSelector::All, &items),
    );
}

#[test]
fn by_name_keeps_only_matching_devices() {
    let items = three_named_devices();
    let names = vec!["B".to_string()];
    assert_eq!(select_devices(&DeviceSelector::ByName(names), &items), vec![1]);
}

#[test]
fn by_name_drops_errors_and_failed_lookups() {
    let items = vec![
        SourceItem::Unavailable,
        SourceItem::Device { name: None },
        device("A"),
    ];
    let names = vec!["A".to_string()];
    assert_eq!(select_devices(&DeviceSelector::ByName(names), &items), vec![2]);
}

#[test]
fn by_index_selects_exactly_the_position() {
    let items = three_named_devices();
    for i in 0..3usize {
        let selected = select_devices(&DeviceSelector::ByIndex(vec![i]), &items);
        assert_eq!(selected, vec![i]);
    }
}

#[test]
fn by_index_out_of_range_selects_nothing_without_error() {
    let items = three_named_devices();
    for i in [3usize, 100, usize::MAX] {
        let selected = select_devices(&DeviceSelector::ByIndex(vec![i]), &items);
        assert_eq!(selected.len(), 0);
    }
}

#[test]
fn by_index_keeps_unavailable_slots_too() {
    // Index selection goes by position alone: it does not probe the
    // device, so an errored slot at a listed position stays selected.
    let items = vec![device("A"), SourceItem::Unavailable, device("C")];
    assert_eq!(
        select_devices(&DeviceSelector::ByIndex(vec![1, 2]), &items),
        vec![1, 2],
    );
}

#[test]
fn only_name_selection_wants_names() {
    assert!(!DeviceSelector::All.wants_name());
    assert!(DeviceSelector::ByName(vec!["A".to_string()]).wants_name());
    assert!(!DeviceSelector::ByIndex(vec![0]).wants_name());
}

#[test]
fn keeps_matches_the_batch_selection() {
    let items = vec![device("A"), SourceItem::Unavailable, device("B")];
    let selector = DeviceSelector::ByName(vec!["B".to_string()]);
    let batch = select_devices(&selector, &items);
    let mut lazy: Vec<usize> = Vec::new();
    for (i, item) in items.iter().enumerate() {
        if selector.keeps(i, item) {
            lazy.push(i);
        }
    }
    assert_eq!(batch, lazy);
}
