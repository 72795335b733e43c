use mamoru_sdk::mamoru_storage::{open, KvStorage};

#[test]
fn open_uses_own_namespace_handle() {
    let storage = open();
    assert_eq!(storage.connection_id, -1);
}

#[test]
fn new_wraps_the_given_handle() {
    let storage = KvStorage::new(17);
    assert_eq!(storage.connection_id, 17);
}

#[test]
fn contains_reads_absent() {
    let storage = open();
    assert!(!storage.contains("anything".to_string()));
}

#[test]
fn keys_lists_nothing() {
    assert_eq!(KvStorage::keys("prefix".to_string()).len(), 0);
    assert_eq!(KvStorage::keys(String::new()).len(), 0);
}
