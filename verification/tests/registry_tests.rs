use stake_pool::registry::Registry;

#[test]
fn registry_insert_get_remove() {
    let mut registry: Registry<u64> = Registry::new();
    assert_eq!(registry.len(), 0);
    assert_eq!(registry.get(7), None);
    assert!(!registry.contains_key(7));

    assert_eq!(registry.insert(7, 70), None);
    assert_eq!(registry.insert(8, 80), None);
    assert_eq!(registry.len(), 2);
    assert_eq!(registry.get(7), Some(&70));
    assert_eq!(registry.get(8), Some(&80));

    // Overwriting hands back the old value and keeps the length.
    assert_eq!(registry.insert(7, 71), Some(70));
    assert_eq!(registry.len(), 2);
    assert_eq!(registry.get(7), Some(&71));

    assert_eq!(registry.remove(7), Some(71));
    assert_eq!(registry.len(), 1);
    assert_eq!(registry.get(7), None);
    assert_eq!(registry.remove(7), None);
}

#[test]
fn registry_walk_in_insertion_order() {
    let mut registry: Registry<u64> = Registry::new();
    registry.insert(3, 30);
    registry.insert(1, 10);
    registry.insert(2, 20);
    let mut seen = Vec::new();
    for i in 0..registry.len() {
        let entry = registry.entry_at(i);
        seen.push((entry.0, entry.1));
    }
    assert_eq!(seen, vec![(3, 30), (1, 10), (2, 20)]);
}
