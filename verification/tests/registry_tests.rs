use storage_cache::{CacheEntry, CacheError, EntryId, Registry, UploadInfo};

fn entry(n: u128, name: &str) -> CacheEntry {
    CacheEntry::new(EntryId::from_u128(n), UploadInfo::from_file_name(name))
}

#[test]
fn new_registry_is_empty() {
    let registry = Registry::new();
    assert_eq!(registry.len(), 0);
    assert!(!registry.contains(EntryId::from_u128(1)));
    assert!(registry.get(EntryId::from_u128(1)).is_none());
}

#[test]
fn inserted_entries_are_found() {
    let mut registry = Registry::new();
    assert!(registry.insert(entry(1, "a.txt")).is_none());
    assert!(registry.insert(entry(2, "b.txt")).is_none());
    assert_eq!(registry.len(), 2);
    assert!(registry.contains(EntryId::from_u128(2)));
    assert_eq!(registry.get(EntryId::from_u128(1)).unwrap().upload_info().name(), "a");
    assert_eq!(registry.get(EntryId::from_u128(2)).unwrap().upload_info().name(), "b");
    assert!(registry.get(EntryId::from_u128(3)).is_none());
}

#[test]
fn insert_replaces_the_entry_with_the_same_identifier() {
    let mut registry = Registry::new();
    registry.insert(entry(1, "a.txt"));
    let replaced = registry.insert(entry(1, "c.txt")).unwrap();
    assert_eq!(replaced.upload_info().name(), "a");
    assert_eq!(registry.len(), 1);
    assert_eq!(registry.get(EntryId::from_u128(1)).unwrap().upload_info().name(), "c");
}

#[test]
fn removed_entries_are_gone() {
    let mut registry = Registry::new();
    registry.insert(entry(1, "a.txt"));
    registry.insert(entry(2, "b.txt"));
    registry.insert(entry(3, "c.txt"));
    let removed = registry.remove(EntryId::from_u128(2)).unwrap();
    assert_eq!(removed.uuid(), EntryId::from_u128(2));
    assert!(registry.remove(EntryId::from_u128(2)).is_none());
    assert_eq!(registry.len(), 2);
    assert!(registry.contains(EntryId::from_u128(1)));
    assert!(!registry.contains(EntryId::from_u128(2)));
    assert!(registry.contains(EntryId::from_u128(3)));
}

#[test]
fn lookup_of_an_unknown_identifier_fails() {
    let mut registry = Registry::new();
    registry.insert(entry(1, "a.txt"));
    assert_eq!(registry.lookup(EntryId::from_u128(1)).unwrap().uuid(), EntryId::from_u128(1));
    match registry.lookup(EntryId::from_u128(9)) {
        Err(CacheError::NotFound { id }) => assert_eq!(id, EntryId::from_u128(9)),
        other => panic!("unexpected: {:?}", other.map(|_| ())),
    }
}
