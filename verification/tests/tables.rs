use mj_tui::lists::find;
use mj_tui::records::{Bundle, TargetSizes};
use mj_tui::resources::store_sizes;
use mj_tui::tables::{is_table, store};

fn bundle(id: &str, repositories: usize) -> Bundle {
    Bundle { id: id.into(), repositories }
}

fn ids(table: &[Bundle]) -> Vec<&str> {
    table.iter().map(|bundle| bundle.id.as_str()).collect()
}

#[test]
fn entries_are_stored_in_the_order_of_their_keys() {
    let mut table = Vec::new();
    for id in ["pear", "apple", "quince", "fig", "apple"] {
        store(&mut table, bundle(id, id.len()));
        assert!(is_table(&table));
    }
    assert_eq!(ids(&table), ["apple", "fig", "pear", "quince"]);
}

#[test]
fn storing_replaces_the_entry_of_its_key_alone() {
    let mut table = vec![bundle("a", 1), bundle("b", 2)];
    store(&mut table, bundle("a", 9));
    assert_eq!(find(&table, "a").map(|bundle| bundle.repositories), Some(9));
    assert_eq!(find(&table, "b").map(|bundle| bundle.repositories), Some(2));
    assert!(find(&table, "c").is_none());
}

#[test]
fn a_list_out_of_order_or_with_a_key_twice_is_no_table() {
    assert!(is_table(&Vec::<Bundle>::new()));
    assert!(!is_table(&vec![bundle("b", 1), bundle("a", 1)]));
    assert!(!is_table(&vec![bundle("a", 1), bundle("a", 2)]));
    // Keys are compared by character: capitals first, marked letters last.
    assert!(is_table(&vec![bundle("Z", 1), bundle("a", 1), bundle("ab", 1), bundle("é", 1)]));
}

#[test]
fn keys_are_ordered_as_a_sorted_map_orders_them() {
    let names = ["", "a", "B", "b", "é", "zebra", "界", "a0", "a-", "\u{10000}", "\u{ffff}"];
    let mut table = Vec::new();
    let mut map = std::collections::BTreeMap::new();
    for (count, name) in names.iter().enumerate() {
        store(&mut table, bundle(name, count));
        map.insert(name.to_string(), count);
    }
    let expected: Vec<&str> = map.keys().map(String::as_str).collect();
    assert_eq!(ids(&table), expected);
}

#[test]
fn sizes_of_targets_stand_in_the_order_of_the_targets() {
    let mut sizes: Vec<TargetSizes> = Vec::new();
    store_sizes(&mut sizes, "west", Vec::new());
    store_sizes(&mut sizes, "east", Vec::new());
    store_sizes(&mut sizes, "west", Vec::new());
    let targets: Vec<&str> = sizes.iter().map(|entry| entry.target_id.as_str()).collect();
    assert_eq!(targets, ["east", "west"]);
}
