use grabber_sfu::table::Table;

#[test]
fn empty_table() {
    let table: Table<u32> = Table::new();
    assert_eq!(table.len(), 0);
    assert_eq!(table.position("a"), None);
    assert!(table.get("a").is_none());
}

#[test]
fn insert_keeps_insertion_order() {
    let mut table: Table<u32> = Table::new();
    table.insert("b".to_string(), 2);
    table.insert("a".to_string(), 1);
    table.insert("c".to_string(), 3);
    assert_eq!(table.len(), 3);
    assert_eq!(table.position("b"), Some(0));
    assert_eq!(table.position("a"), Some(1));
    assert_eq!(table.position("c"), Some(2));
    assert_eq!(table.name_at(0), "b");
    assert_eq!(table.name_at(2), "c");
    assert_eq!(*table.value_at(1), 1);
    assert_eq!(table.get("c"), Some(&3));
    assert_eq!(table.get("d"), None);
}

#[test]
fn insert_replaces_in_place() {
    let mut table: Table<u32> = Table::new();
    table.insert("a".to_string(), 1);
    table.insert("b".to_string(), 2);
    table.insert("a".to_string(), 10);
    assert_eq!(table.len(), 2);
    assert_eq!(table.position("a"), Some(0));
    assert_eq!(table.get("a"), Some(&10));
    assert_eq!(table.get("b"), Some(&2));
}

#[test]
fn remove_shifts_later_entries() {
    let mut table: Table<u32> = Table::new();
    for (i, key) in ["a", "b", "c", "d", "e"].iter().enumerate() {
        table.insert(key.to_string(), i as u32);
    }
    assert_eq!(table.remove("b"), Some(1));
    assert_eq!(table.remove("b"), None);
    assert_eq!(table.remove("zzz"), None);
    assert_eq!(table.len(), 4);
    assert_eq!(table.position("a"), Some(0));
    assert_eq!(table.position("b"), None);
    assert_eq!(table.position("c"), Some(1));
    assert_eq!(table.position("d"), Some(2));
    assert_eq!(table.position("e"), Some(3));
    assert_eq!(table.get("e"), Some(&4));
    assert_eq!(table.remove("e"), Some(4));
    assert_eq!(table.remove("a"), Some(0));
    assert_eq!(table.position("c"), Some(0));
    assert_eq!(table.position("d"), Some(1));
    assert_eq!(table.name_at(0), "c");
    table.insert("b".to_string(), 7);
    assert_eq!(table.position("b"), Some(2));
    assert_eq!(table.get("b"), Some(&7));
}

#[test]
fn values_change_in_place() {
    let mut table: Table<Vec<u8>> = Table::new();
    table.insert("a".to_string(), vec![1]);
    table.insert("b".to_string(), vec![2]);
    table.value_mut(1).push(3);
    assert_eq!(table.get("b"), Some(&vec![2, 3]));
    assert_eq!(table.get("a"), Some(&vec![1]));
    assert_eq!(table.position("b"), Some(1));
}

#[test]
fn many_keys() {
    let mut table: Table<usize> = Table::new();
    for i in 0..200 {
        table.insert(format!("key-{}", i), i);
    }
    for i in (0..200).step_by(2) {
        assert_eq!(table.remove(&format!("key-{}", i)), Some(i));
    }
    assert_eq!(table.len(), 100);
    for i in 0..200 {
        let found = table.get(&format!("key-{}", i)).copied();
        if i % 2 == 0 {
            assert_eq!(found, None);
        } else {
            assert_eq!(found, Some(i));
            assert_eq!(table.position(&format!("key-{}", i)), Some(i / 2));
        }
    }
}

#[test]
fn names_of_a_table() {
    let mut table: Table<u32> = Table::new();
    table.insert("b".to_string(), 2);
    table.insert("a".to_string(), 1);
    table.remove("b");
    table.insert("c".to_string(), 3);
    assert_eq!(table.into_names(), vec!["a".to_string(), "c".to_string()]);
}
