use aria2_rs_yet::pending::PendingTable;

#[test]
fn new_table_is_empty() {
    let table: PendingTable<String> = PendingTable::new();
    assert!(table.is_empty());
    assert_eq!(table.len(), 0);
    assert!(!table.contains(2));
}

#[test]
fn insert_then_resolve_gives_the_slot_back_once() {
    let mut table: PendingTable<String> = PendingTable::new();
    table.insert(2, "two".to_string());
    table.insert(3, "three".to_string());
    assert_eq!(table.len(), 2);
    assert!(table.contains(2));
    assert_eq!(table.resolve(3), Some("three".to_string()));
    assert_eq!(table.resolve(3), None);
    assert!(table.contains(2));
    assert_eq!(table.resolve(2), Some("two".to_string()));
    assert!(table.is_empty());
}

#[test]
fn resolve_of_unknown_id_changes_nothing() {
    let mut table: PendingTable<u8> = PendingTable::new();
    table.insert(-5, 1);
    assert_eq!(table.resolve(5), None);
    assert_eq!(table.len(), 1);
    assert!(table.contains(-5));
}

#[test]
fn clear_drops_every_slot() {
    let mut table: PendingTable<u8> = PendingTable::new();
    for id in 2..10 {
        table.insert(id, id as u8);
    }
    assert_eq!(table.len(), 8);
    table.clear();
    assert!(table.is_empty());
    for id in 2..10 {
        assert_eq!(table.resolve(id), None);
    }
    table.insert(2, 9);
    assert_eq!(table.resolve(2), Some(9));
}
