use sage::dtype::map::Entry;
use sage::dtype::ops::Native;
use sage::dtype::{DType, Number, OrderedMap};
use sage::error::{ErrorCode, Unexpected};
use std::collections::BTreeMap;

fn num(n: u64) -> DType {
    DType::Number(Number::from_u64(n))
}

#[test]
fn insert_on_an_existing_key_returns_the_previous_value() {
    let mut map = OrderedMap::new();
    assert_eq!(map.insert("a".to_string(), num(1)), None);
    assert_eq!(map.len(), 1);
    assert_eq!(map.insert("a".to_string(), num(2)), Some(num(1)));
    assert_eq!(map.len(), 1);
    assert_eq!(map.get("a"), Some(&num(2)));
    assert_eq!(map.insert("b".to_string(), num(3)), None);
    assert_eq!(map.len(), 2);
}

#[test]
fn entries_are_kept_in_the_order_of_their_keys() {
    let keys = ["b", "a", "", "ab", "B", "é", "z", "aa", "\u{10000}", "\u{ffff}", "a\u{0}", "~"];
    let mut map = OrderedMap::new();
    let mut model: BTreeMap<String, u64> = BTreeMap::new();
    for (i, k) in keys.iter().enumerate() {
        map.insert(k.to_string(), num(i as u64));
        model.insert(k.to_string(), i as u64);
    }
    let got: Vec<String> = map.keys().clone();
    let expected: Vec<String> = model.keys().cloned().collect();
    assert_eq!(got, expected);
    let values: Vec<DType> = model.values().map(|v| num(*v)).collect();
    assert_eq!(map.values().len(), values.len());
    for (i, v) in values.iter().enumerate() {
        assert_eq!(&map.values()[i], v);
    }
    let pairs = map.iter();
    assert_eq!(pairs.len(), keys.len());
    assert_eq!(pairs[0].0, "");
    for k in keys.iter() {
        assert!(map.contains_key(k));
        assert_eq!(map.get(k), Some(&num(model[*k])));
    }
    assert!(!map.contains_key("missing"));
    assert_eq!(map.get("missing"), None);
}

#[test]
fn remove_takes_the_entry_out() {
    let mut map = OrderedMap::new();
    map.insert("a".to_string(), num(1));
    map.insert("b".to_string(), num(2));
    map.insert("c".to_string(), num(3));
    assert_eq!(map.remove("b"), Some(num(2)));
    assert_eq!(map.remove("b"), None);
    assert_eq!(map.len(), 2);
    assert_eq!(map.remove_entry("c"), Some(("c".to_string(), num(3))));
    assert_eq!(map.remove_entry("c"), None);
    assert_eq!(map.keys().clone(), vec!["a".to_string()]);
    map.clear();
    assert!(map.is_empty());
    assert_eq!(map.len(), 0);
}

#[test]
fn get_mut_changes_the_value_in_place() {
    let mut map = OrderedMap::with_capacity(4);
    map.insert("a".to_string(), num(1));
    *map.get_mut("a").unwrap() = num(9);
    assert_eq!(map.get("a"), Some(&num(9)));
    assert!(map.get_mut("b").is_none());
    assert_eq!(map.len(), 1);
}

#[test]
fn append_moves_everything_over() {
    let mut left = OrderedMap::new();
    left.insert("a".to_string(), num(1));
    left.insert("b".to_string(), num(2));
    let mut right = OrderedMap::new();
    right.insert("b".to_string(), num(20));
    right.insert("c".to_string(), num(30));
    left.append(&mut right);
    assert!(right.is_empty());
    assert_eq!(left.len(), 3);
    assert_eq!(left.get("a"), Some(&num(1)));
    assert_eq!(left.get("b"), Some(&num(20)));
    assert_eq!(left.get("c"), Some(&num(30)));
}

#[test]
fn maps_compare_and_copy_by_content() {
    let mut one = OrderedMap::new();
    one.insert("x".to_string(), num(1));
    one.insert("y".to_string(), DType::Array(vec![num(2)]));
    let mut two = OrderedMap::default();
    two.insert("y".to_string(), DType::Array(vec![num(2)]));
    two.insert("x".to_string(), num(1));
    assert_eq!(one, two);
    let copy = one.clone();
    assert_eq!(copy, one);
    two.insert("x".to_string(), num(3));
    assert_ne!(one, two);
    let v = DType::Object(one);
    assert_eq!(v.clone(), v);
}

#[test]
fn vacant_entries_insert() {
    let mut map = OrderedMap::new();
    map.insert("b".to_string(), num(2));
    match map.entry("a".to_string()) {
        Entry::Vacant(vacant) => {
            assert_eq!(vacant.key(), "a");
            let slot = vacant.insert(num(1));
            assert_eq!(*slot, num(1));
            *slot = num(10);
        }
        Entry::Occupied(_) => panic!("the key is not there"),
    }
    assert_eq!(map.keys().clone(), vec!["a".to_string(), "b".to_string()]);
    assert_eq!(map.get("a"), Some(&num(10)));
}

#[test]
fn occupied_entries_read_write_and_remove() {
    let mut map = OrderedMap::new();
    map.insert("sage".to_string(), num(12));
    match map.entry("sage".to_string()) {
        Entry::Occupied(mut occupied) => {
            assert_eq!(occupied.key(), "sage");
            assert_eq!(occupied.get(), &num(12));
            assert_eq!(occupied.insert(num(13)), num(12));
            assert_eq!(occupied.get(), &num(13));
            *occupied.into_mut() = num(14);
        }
        Entry::Vacant(_) => panic!("the key is there"),
    }
    assert_eq!(map.get("sage"), Some(&num(14)));
    match map.entry("sage".to_string()) {
        Entry::Occupied(occupied) => assert_eq!(occupied.remove(), num(14)),
        Entry::Vacant(_) => panic!("the key is there"),
    }
    assert!(map.is_empty());
}

#[test]
fn or_insert_and_and_modify() {
    let mut map = OrderedMap::new();
    assert_eq!(map.entry("sage".to_string()).key(), "sage");
    map.entry("sage".to_string()).and_modify(|e| *e = DType::from_str("rust")).or_insert(DType::from_str("cpp"));
    assert_eq!(map.get("sage"), Some(&DType::from_str("cpp")));
    map.entry("sage".to_string()).and_modify(|e| *e = DType::from_str("rust")).or_insert(DType::from_str("cpp"));
    assert_eq!(map.get("sage"), Some(&DType::from_str("rust")));
    map.entry("other".to_string()).or_insert_with(|| DType::from_str("hoho"));
    assert_eq!(map.get("other"), Some(&DType::from_str("hoho")));
    map.entry("other".to_string()).or_insert_with(|| DType::from_str("never"));
    assert_eq!(map.get("other"), Some(&DType::from_str("hoho")));
    assert_eq!(map.len(), 2);
}

#[test]
fn maps_show_as_maps_with_string_keys() {
    let mut map = OrderedMap::new();
    map.insert("b".to_string(), num(2));
    map.insert("a".to_string(), DType::Null);
    assert_eq!(
        map.serialize(),
        Native::Mapping(vec![
            (Native::Str("a".to_string()), Native::Unit),
            (Native::Str("b".to_string()), Native::U64(2)),
        ])
    );
}

#[test]
fn values_are_indexed_by_position_and_by_key() {
    let mut map = OrderedMap::new();
    map.insert("A".to_string(), num(65));
    let mut object = DType::Object(map);
    let mut array = DType::Array(vec![DType::from_str("A"), DType::from_str("B"), DType::from_str("C")]);
    assert_eq!(object.get("A"), Some(&num(65)));
    assert_eq!(object.get("A".to_string()), Some(&num(65)));
    assert_eq!(object.get("B"), None);
    assert_eq!(object.get(0usize), None);
    assert_eq!(array.get(2usize), Some(&DType::from_str("C")));
    assert_eq!(array.get(3usize), None);
    assert_eq!(array.get("A"), None);
    *object.get_mut("A").unwrap() = num(69);
    assert_eq!(object.get("A"), Some(&num(69)));
    *array.get_mut(2usize).unwrap() = DType::from_str("D");
    assert_eq!(array.get(2usize), Some(&DType::from_str("D")));
    assert!(array.get_mut(5usize).is_none());
    assert!(object.get_mut("Z").is_none());
    assert!(DType::Null.get("A").is_none());
}

#[test]
fn maps_are_read_from_maps_with_string_keys() {
    assert_eq!(OrderedMap::deserialize(&Native::Unit), Ok(OrderedMap::new()));
    let native = Native::Mapping(vec![
        (Native::Str("b".to_string()), Native::U8(2)),
        (Native::Str("a".to_string()), Native::Sequence(vec![Native::Bool(true)])),
        (Native::Str("b".to_string()), Native::U8(3)),
    ]);
    let map = OrderedMap::deserialize(&native).unwrap();
    assert_eq!(map.len(), 2);
    assert_eq!(map.get("b"), Some(&num(3)));
    assert_eq!(map.get("a"), Some(&DType::Array(vec![DType::Boolean(true)])));
}

#[test]
fn maps_are_not_read_from_other_shapes() {
    let err = OrderedMap::deserialize(&Native::Bool(true)).unwrap_err();
    assert_eq!(
        err.code,
        ErrorCode::InvalidType { unexpected: Unexpected::Bool(true), expected: "a map".to_string() }
    );
    let err = OrderedMap::deserialize(&Native::Sequence(vec![])).unwrap_err();
    assert_eq!(
        err.code,
        ErrorCode::InvalidType { unexpected: Unexpected::Sequence, expected: "a map".to_string() }
    );
    let native = Native::Mapping(vec![(Native::Str("a".to_string()), Native::Unit), (Native::U8(1), Native::Unit)]);
    let err = OrderedMap::deserialize(&native).unwrap_err();
    assert_eq!(
        err.code,
        ErrorCode::InvalidType { unexpected: Unexpected::Unsigned(1), expected: "a string".to_string() }
    );
    let native = Native::Mapping(vec![(
        Native::Str("a".to_string()),
        Native::Mapping(vec![(Native::Bool(false), Native::Unit)]),
    )]);
    let err = OrderedMap::deserialize(&native).unwrap_err();
    assert_eq!(err.code, ErrorCode::KeyMustBeAString);
}

#[test]
fn pairs_collect_into_an_object() {
    let v = DType::from_iter(vec![
        ("lorem".to_string(), num(5)),
        ("ipsum".to_string(), num(2)),
        ("lorem".to_string(), num(7)),
    ]);
    let map = v.as_object().unwrap();
    assert_eq!(map.keys().clone(), vec!["ipsum".to_string(), "lorem".to_string()]);
    assert_eq!(map.get("lorem"), Some(&num(7)));
    assert_eq!(DType::from_iter(vec![]), DType::Object(OrderedMap::new()));
}
