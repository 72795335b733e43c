use mamoru_sdk::mamoru_serialize::{data, DataBuilder, ValueData, ValueType};

/// Looks a name up in a finished wire value: finds its pair in the pair
/// list and fetches the side-array slot the recorded index addresses.
fn lookup(v: &ValueData, name: &str) -> Option<ValueType> {
    let elems = match &v.value {
        ValueType::Composite(elems) => elems,
        _ => return None,
    };
    let arr = match &v.data {
        Some(arr) => arr,
        None => return None,
    };
    for (key, idx) in elems {
        if key == name {
            return arr.get(*idx as usize).cloned();
        }
    }
    None
}

#[test]
fn empty_builder_yields_empty_map() {
    let b = DataBuilder::new();
    let v = data(&b);
    match &v.value {
        ValueType::Composite(elems) => assert_eq!(elems.len(), 0),
        _ => panic!("expected the map variant"),
    }
    match &v.data {
        Some(arr) => assert_eq!(arr.len(), 0),
        None => panic!("expected an empty side array, not a missing one"),
    }
}

#[test]
fn distinct_names_one_entry_each() {
    let mut b = DataBuilder::new();
    b.integer("first", 7);
    b.text("second", "payload".to_string());
    b.bool("third", false);
    let v = data(&b);
    match &v.value {
        ValueType::Composite(elems) => {
            assert_eq!(elems.len(), 3);
            for (j, (_, idx)) in elems.iter().enumerate() {
                assert_eq!(*idx as usize, j);
            }
        }
        _ => panic!("expected the map variant"),
    }
    assert!(matches!(lookup(&v, "first"), Some(ValueType::U64(7))));
    match lookup(&v, "second") {
        Some(ValueType::String(s)) => assert_eq!(s, "payload"),
        _ => panic!("expected the text entry"),
    }
    assert!(matches!(lookup(&v, "third"), Some(ValueType::Bool(false))));
    assert!(lookup(&v, "fourth").is_none());
}

#[test]
fn round_trip_three_entries() {
    let mut b = DataBuilder::new();
    b.integer("a", 1);
    b.text("b", "x".to_string());
    b.bool("c", true);
    let v = data(&b);
    assert!(matches!(lookup(&v, "a"), Some(ValueType::U64(1))));
    match lookup(&v, "b") {
        Some(ValueType::String(s)) => assert_eq!(s, "x"),
        _ => panic!("expected the text entry"),
    }
    assert!(matches!(lookup(&v, "c"), Some(ValueType::Bool(true))));
}

#[test]
fn last_write_wins() {
    let mut b = DataBuilder::new();
    b.integer("key", 1);
    b.integer("key", 2);
    b.text("other", "v".to_string());
    b.bool("key", true);
    let v = data(&b);
    match &v.value {
        ValueType::Composite(elems) => assert_eq!(elems.len(), 2),
        _ => panic!("expected the map variant"),
    }
    assert!(matches!(lookup(&v, "key"), Some(ValueType::Bool(true))));
}
