use bitwarden_secret_operator::string_map::StringMap;

fn text(s: &str) -> String {
    s.to_string()
}

#[test]
fn a_new_map_is_empty() {
    let map: StringMap<String> = StringMap::new();
    assert_eq!(map.len(), 0);
    assert!(!map.contains_key("a"));
    assert_eq!(map.get("a"), None);
}

#[test]
fn insert_then_get() {
    let mut map: StringMap<String> = StringMap::new();
    map.insert(text("a"), text("1"));
    map.insert(text("b"), text("2"));
    assert_eq!(map.len(), 2);
    assert_eq!(map.get("a"), Some(&text("1")));
    assert_eq!(map.get("b"), Some(&text("2")));
    assert_eq!(map.get("c"), None);
    assert!(map.contains_key("a"));
    assert!(!map.contains_key("c"));
}

#[test]
fn insert_replaces_the_value_of_a_key() {
    let mut map: StringMap<String> = StringMap::new();
    map.insert(text("a"), text("1"));
    map.insert(text("b"), text("2"));
    map.insert(text("a"), text("3"));
    assert_eq!(map.len(), 2);
    assert_eq!(map.get("a"), Some(&text("3")));
    assert_eq!(map.get("b"), Some(&text("2")));
    assert_eq!(map.key_at(0), "a");
    assert_eq!(map.value_at(0), "3");
    assert_eq!(map.key_at(1), "b");
    assert_eq!(map.value_at(1), "2");
}

#[test]
fn overlay_lets_the_other_map_win() {
    let mut map: StringMap<String> = StringMap::new();
    map.insert(text("a"), text("1"));
    map.insert(text("b"), text("2"));
    let mut other: StringMap<String> = StringMap::new();
    other.insert(text("b"), text("20"));
    other.insert(text("c"), text("30"));
    map.overlay(&other);
    assert_eq!(map.len(), 3);
    assert_eq!(map.get("a"), Some(&text("1")));
    assert_eq!(map.get("b"), Some(&text("20")));
    assert_eq!(map.get("c"), Some(&text("30")));
}

#[test]
fn overlay_with_an_empty_map_changes_nothing() {
    let mut map: StringMap<String> = StringMap::new();
    map.insert(text("a"), text("1"));
    let other: StringMap<String> = StringMap::new();
    map.overlay(&other);
    assert_eq!(map.len(), 1);
    assert_eq!(map.get("a"), Some(&text("1")));
}

#[test]
fn values_of_bytes() {
    let mut map: StringMap<Vec<u8>> = StringMap::new();
    map.insert(text("k"), vec![1, 2, 3]);
    assert_eq!(map.get("k"), Some(&vec![1u8, 2, 3]));
}

#[test]
fn a_clone_holds_the_same_pairs() {
    let mut map: StringMap<String> = StringMap::new();
    map.insert(text("a"), text("1"));
    map.insert(text("b"), text("2"));
    let mut copy = map.clone();
    assert_eq!(copy.len(), 2);
    assert_eq!(copy.key_at(0), "a");
    assert_eq!(copy.get("a"), Some(&text("1")));
    assert_eq!(copy.get("b"), Some(&text("2")));
    copy.insert(text("a"), text("9"));
    assert_eq!(copy.get("a"), Some(&text("9")));
    assert_eq!(map.get("a"), Some(&text("1")));
}

#[test]
fn the_length_counts_keys() {
    let mut map: StringMap<String> = StringMap::new();
    for round in 0..3 {
        for key in ["x", "y", "z"] {
            map.insert(text(key), format!("{}{}", key, round));
        }
    }
    assert_eq!(map.len(), 3);
    assert_eq!(map.get("x"), Some(&text("x2")));
    assert_eq!(map.get("y"), Some(&text("y2")));
    assert_eq!(map.get("z"), Some(&text("z2")));
}
