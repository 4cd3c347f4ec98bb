use sage::datastore::json::raw::{
    to_raw_dtype, BorrowedRawDeserializer, BoxedFromString, OwnedRawDeserializer, RawDType, ReferenceFromString, TOKEN,
};
use sage::dtype::ops::ser::{invalid_raw_value, to_dtype, RawDTypeEmitter};
use sage::dtype::ops::Native;
use sage::dtype::{DType, OrderedMap};
use sage::error::{ErrorCode, Unexpected};

#[test]
fn from_string_keeps_a_text_without_outer_whitespace() {
    for text in ["{}", "null", "[1, 2 ,3]", "{\"a\" :  { \"b\":[ ] } }", "\"  spaced  \"", "-1.5e3", "true"] {
        let raw = RawDType::from_string(text.to_string()).unwrap();
        assert_eq!(raw.get(), text);
    }
}

#[test]
fn from_string_leaves_out_the_whitespace_around() {
    let raw = RawDType::from_string(" \t\r\n {\"code\": 200, \"payload\": {}} \n".to_string()).unwrap();
    assert_eq!(raw.get(), "{\"code\": 200, \"payload\": {}}");
    assert_eq!(RawDType::from_string("  7".to_string()).unwrap().get(), "7");
    assert_eq!(RawDType::from_string("7  ".to_string()).unwrap().get(), "7");
}

#[test]
fn from_string_refuses_what_is_not_one_value() {
    for text in ["", "   ", "{", "[1,]", "1 2", "nul", "{\"a\"}", "'single'", "\u{a0}1"] {
        let err = RawDType::from_string(text.to_string()).unwrap_err();
        assert_eq!(err.code, ErrorCode::ExpectedSomeDType);
        assert!(err.line >= 1);
    }
    let err = RawDType::from_string("[1,\n  x]".to_string()).unwrap_err();
    assert_eq!((err.line, err.column), (2, 3));
}

#[test]
fn from_lexed_goes_by_the_fault_it_is_given() {
    let raw = RawDType::from_lexed(" x ".to_string(), None).unwrap();
    assert_eq!(raw.get(), "x");
    let raw = RawDType::from_lexed("\n\n".to_string(), None).unwrap();
    assert_eq!(raw.get(), "");
    let err = RawDType::from_lexed("1".to_string(), Some((4, 2))).unwrap_err();
    assert_eq!((err.code.clone(), err.line, err.column), (ErrorCode::ExpectedSomeDType, 4, 2));
}

#[test]
fn an_owned_text_without_outer_whitespace_is_not_copied() {
    let mut text = String::from("{\"k\":[1,2,3]}");
    text.shrink_to_fit();
    assert_eq!(text.capacity(), text.len());
    let before = text.as_bytes().as_ptr() as usize;
    let raw = RawDType::from_string(text).unwrap();
    assert_eq!(raw.get().as_bytes().as_ptr() as usize, before);
}

#[test]
fn raw_values_copy_and_default() {
    let raw = RawDType::from_string("[1]".to_string()).unwrap();
    let copy = raw.clone();
    assert_eq!(copy, raw);
    assert_eq!(copy.get(), "[1]");
    assert_eq!(RawDType::default().get(), "null");
    assert_eq!(raw.to_string(), "[1]");
    assert_eq!(to_raw_dtype("{\"a\":1}".to_string()).unwrap().get(), "{\"a\":1}");
}

#[test]
fn raw_values_tunnel_as_a_structure_of_one_field() {
    let raw = RawDType::from_string("[1, 2]".to_string()).unwrap();
    let shown = raw.serialize();
    assert_eq!(TOKEN, "$sage::raw::RawDType");
    assert_eq!(
        shown,
        Native::Struct {
            name: TOKEN.to_string(),
            fields: vec![(TOKEN.to_string(), Native::Str("[1, 2]".to_string()))],
        }
    );
    let back = RawDType::deserialize(&shown).unwrap();
    assert_eq!(back.get(), "[1, 2]");
    let mut map = OrderedMap::new();
    map.insert(TOKEN.to_string(), DType::String("[1, 2]".to_string()));
    assert_eq!(to_dtype(&shown), Ok(DType::Object(map)));
}

#[test]
fn raw_values_are_read_from_a_map_keyed_by_the_marker() {
    let map = Native::Mapping(vec![(Native::Str(TOKEN.to_string()), Native::Str(" 1 ".to_string()))]);
    assert_eq!(RawDType::deserialize(&map).unwrap().get(), " 1 ");
}

#[test]
fn a_wrong_key_is_an_invalid_raw_value() {
    let map = Native::Mapping(vec![(Native::Str("other".to_string()), Native::Str("1".to_string()))]);
    let err = RawDType::deserialize(&map).unwrap_err();
    assert_eq!(err.code, ErrorCode::Message("unexpected raw value".to_string()));
    let fields = Native::Struct { name: TOKEN.to_string(), fields: vec![("other".to_string(), Native::Str("1".to_string()))] };
    let err = RawDType::deserialize(&fields).unwrap_err();
    assert_eq!(err.code, ErrorCode::Message("unexpected raw value".to_string()));
    let map = Native::Mapping(vec![(Native::U8(1), Native::Str("1".to_string()))]);
    let err = RawDType::deserialize(&map).unwrap_err();
    assert_eq!(
        err.code,
        ErrorCode::InvalidType { unexpected: Unexpected::Unsigned(1), expected: "raw value".to_string() }
    );
}

#[test]
fn a_missing_marker_is_an_invalid_raw_value() {
    let err = RawDType::deserialize(&Native::Mapping(vec![])).unwrap_err();
    assert_eq!(
        err.code,
        ErrorCode::InvalidType { unexpected: Unexpected::Mapping, expected: "any valid JSON value".to_string() }
    );
    let err = RawDType::deserialize(&Native::Struct { name: TOKEN.to_string(), fields: vec![] }).unwrap_err();
    assert_eq!(
        err.code,
        ErrorCode::InvalidType { unexpected: Unexpected::Mapping, expected: "any valid JSON value".to_string() }
    );
    let err = RawDType::deserialize(&Native::Str("1".to_string())).unwrap_err();
    assert_eq!(
        err.code,
        ErrorCode::InvalidType {
            unexpected: Unexpected::Str("1".to_string()),
            expected: "any valid JSON value".to_string()
        }
    );
    let map = Native::Mapping(vec![(Native::Str(TOKEN.to_string()), Native::U8(1))]);
    let err = RawDType::deserialize(&map).unwrap_err();
    assert_eq!(
        err.code,
        ErrorCode::InvalidType { unexpected: Unexpected::Unsigned(1), expected: "raw value".to_string() }
    );
}

#[test]
fn the_readers_take_the_text_as_it_is() {
    assert_eq!(ReferenceFromString.visit_borrowed_str(" [ ] ").unwrap().get(), " [ ] ");
    assert_eq!(BoxedFromString.visit_str("{}").unwrap().get(), "{}");
    assert_eq!(BoxedFromString.visit_string("{}".to_string()).unwrap().get(), "{}");
    assert_eq!(BoxedFromString.deserialize(&Native::Str("7".to_string())).unwrap().get(), "7");
    assert!(BoxedFromString.deserialize(&Native::Unit).is_err());
}

#[test]
fn the_owned_source_hands_out_marker_then_text() {
    let mut source = OwnedRawDeserializer { raw_dtype: Some("[1]".to_string()) };
    assert_eq!(source.next_key_seed(), Ok(Some(TOKEN)));
    assert_eq!(source.next_value_seed(), Ok("[1]".to_string()));
    assert_eq!(source.next_key_seed(), Ok(None));
    assert!(source.raw_dtype.is_none());
}

#[test]
fn the_borrowed_source_hands_out_marker_then_text() {
    let text = String::from("{\"a\": 1}");
    let mut source = BorrowedRawDeserializer { raw_dtype: Some(text.as_str()) };
    assert_eq!(source.next_key_seed(), Ok(Some(TOKEN)));
    assert_eq!(source.next_value_seed(), Ok("{\"a\": 1}"));
    assert_eq!(source.next_key_seed(), Ok(None));
}

#[test]
fn the_emitter_takes_text_under_the_marker_only() {
    let text = Native::Str("[1]".to_string());
    assert_eq!(RawDTypeEmitter.serialize_field(TOKEN, &text), Ok("[1]".to_string()));
    assert_eq!(RawDTypeEmitter.serialize_field("other", &text), Err(invalid_raw_value()));
    assert_eq!(RawDTypeEmitter.serialize_field(TOKEN, &Native::U8(1)), Err(invalid_raw_value()));
    assert_eq!(RawDTypeEmitter.serialize(&Native::Unit), Err(invalid_raw_value()));
    assert_eq!(RawDTypeEmitter.serialize(&text), Ok("[1]".to_string()));
    assert_eq!(RawDTypeEmitter.serialize_str("x"), Ok("x".to_string()));
}
