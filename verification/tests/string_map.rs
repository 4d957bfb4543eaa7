use spawner::string_map::StringMap;

#[test]
fn entries_are_found_by_key() {
    let mut map = StringMap::new();
    assert_eq!(map.len(), 0);
    assert_eq!(map.get("a"), None);
    map.insert("b".to_string(), 1);
    map.insert("a".to_string(), 2);
    assert_eq!(map.get("a"), Some(&2));
    assert_eq!(map.get("b"), Some(&1));
    assert_eq!(map.get(""), None);
    assert_eq!(map.get("A"), None);
}

#[test]
fn keys_keep_their_order_and_occur_once() {
    let mut map = StringMap::new();
    map.insert("b".to_string(), 1);
    map.insert("a".to_string(), 2);
    map.insert("b".to_string(), 3);
    assert_eq!(map.len(), 2);
    assert_eq!(map.key_at(0), "b");
    assert_eq!(map.value_at(0), &3);
    assert_eq!(map.key_at(1), "a");
    assert_eq!(map.value_at(1), &2);
    let copy = map.clone();
    assert_eq!(copy.len(), 2);
    assert_eq!(copy.get("b"), Some(&3));
    assert_eq!(copy.key_at(1), "a");
}
