use rust_state_machine::storage::StorageMap;

#[test]
fn storage_map_basics() {
    let mut map: StorageMap<u32> = StorageMap::new();

    assert_eq!(map.get(&"k".to_string()), None);
    assert!(!map.contains_key(&"k".to_string()));

    map.insert("k".to_string(), 1);
    assert_eq!(map.get(&"k".to_string()), Some(&1));
    assert!(map.contains_key(&"k".to_string()));

    // A second insert under the same key replaces the value.
    map.insert("k".to_string(), 2);
    assert_eq!(map.get(&"k".to_string()), Some(&2));

    // Other keys are untouched.
    map.insert("other".to_string(), 9);
    assert_eq!(map.get(&"k".to_string()), Some(&2));
    assert_eq!(map.get(&"other".to_string()), Some(&9));

    map.remove(&"k".to_string());
    assert_eq!(map.get(&"k".to_string()), None);
    assert_eq!(map.get(&"other".to_string()), Some(&9));

    // Removing a missing key leaves the map as it is.
    map.remove(&"k".to_string());
    assert_eq!(map.get(&"other".to_string()), Some(&9));
}
