use sage::dtype::ops::ser::{
    from_dtype, invalid_raw_value, key_must_be_a_string, to_dtype, MapKeySerializer, Serializer,
};
use sage::dtype::ops::Native;
use sage::dtype::{DType, DateTime, Number, OrderedMap};
use sage::error::{Error, ErrorCode, Unexpected};

fn s(text: &str) -> String {
    text.to_string()
}

fn num(n: u64) -> DType {
    DType::Number(Number::from_u64(n))
}

fn object(entries: Vec<(&str, DType)>) -> DType {
    let mut map = OrderedMap::new();
    for (k, v) in entries {
        map.insert(k.to_string(), v);
    }
    DType::Object(map)
}

#[test]
fn scalars_build_directly() {
    assert_eq!(to_dtype(&Native::Bool(true)), Ok(DType::Boolean(true)));
    assert_eq!(to_dtype(&Native::I8(-1)), Ok(DType::Number(Number::from_i64(-1))));
    assert_eq!(to_dtype(&Native::I16(-300)), Ok(DType::Number(Number::from_i64(-300))));
    assert_eq!(to_dtype(&Native::I32(7)), Ok(num(7)));
    assert_eq!(to_dtype(&Native::I64(i64::MIN)), Ok(DType::Number(Number::from_i64(i64::MIN))));
    assert_eq!(to_dtype(&Native::U8(255)), Ok(num(255)));
    assert_eq!(to_dtype(&Native::U16(65535)), Ok(num(65535)));
    assert_eq!(to_dtype(&Native::U32(1)), Ok(num(1)));
    assert_eq!(to_dtype(&Native::U64(u64::MAX)), Ok(num(u64::MAX)));
    assert_eq!(to_dtype(&Native::Char('é')), Ok(DType::String(s("é"))));
    assert_eq!(to_dtype(&Native::Str(s("text"))), Ok(DType::String(s("text"))));
    assert_eq!(to_dtype(&Native::Unit), Ok(DType::Null));
    assert_eq!(to_dtype(&Native::Absent), Ok(DType::Null));
    assert_eq!(to_dtype(&Native::UnitStruct { name: s("Marker") }), Ok(DType::Null));
}

#[test]
fn floats_build_numbers_or_null() {
    let built = to_dtype(&Native::F64(1.5f64.to_bits())).unwrap();
    assert_eq!(built.as_f64(), Some(1.5f64.to_bits()));
    assert!(built.is_f64());
    assert_eq!(to_dtype(&Native::F64(f64::NAN.to_bits())), Ok(DType::Null));
    assert_eq!(to_dtype(&Native::F64(f64::INFINITY.to_bits())), Ok(DType::Null));
    assert_eq!(to_dtype(&Native::F64(f64::NEG_INFINITY.to_bits())), Ok(DType::Null));
    assert_eq!(Serializer.serialize_f64((1.0f32 as f64).to_bits()).unwrap().as_f64(), Some(1.0f64.to_bits()));
}

#[test]
fn bytes_build_an_array_of_numbers() {
    assert_eq!(to_dtype(&Native::Bytes(vec![0, 7, 255])), Ok(DType::Array(vec![num(0), num(7), num(255)])));
    assert_eq!(to_dtype(&Native::Bytes(vec![])), Ok(DType::Array(vec![])));
    assert_eq!(Serializer.serialize_bytes(&[1, 2]), Ok(DType::Array(vec![num(1), num(2)])));
}

#[test]
fn wrappers_are_transparent() {
    let inner = Native::Tuple(vec![Native::U8(1), Native::Bool(false)]);
    let expected = DType::Array(vec![num(1), DType::Boolean(false)]);
    assert_eq!(to_dtype(&Native::Present(Box::new(inner.clone_for_test()))), Ok(expected.clone()));
    assert_eq!(
        to_dtype(&Native::NewtypeStruct { name: s("Meters"), value: Box::new(inner.clone_for_test()) }),
        Ok(expected)
    );
}

trait CloneForTest {
    fn clone_for_test(&self) -> Native;
}

impl CloneForTest for Native {
    fn clone_for_test(&self) -> Native {
        match self {
            Native::Tuple(items) => Native::Tuple(items.iter().map(|i| i.clone_for_test()).collect()),
            Native::U8(u) => Native::U8(*u),
            Native::Bool(b) => Native::Bool(*b),
            _ => Native::Unit,
        }
    }
}

#[test]
fn sequences_build_arrays_in_order() {
    let items = vec![Native::U8(1), Native::Str(s("two")), Native::Sequence(vec![Native::Unit])];
    let expected = DType::Array(vec![num(1), DType::String(s("two")), DType::Array(vec![DType::Null])]);
    assert_eq!(to_dtype(&Native::Sequence(items)), Ok(expected.clone()));
    let items = vec![Native::U8(1), Native::Str(s("two")), Native::Sequence(vec![Native::Unit])];
    assert_eq!(to_dtype(&Native::Tuple(items)), Ok(expected.clone()));
    let items = vec![Native::U8(1), Native::Str(s("two")), Native::Sequence(vec![Native::Unit])];
    assert_eq!(to_dtype(&Native::TupleStruct { name: s("T"), fields: items }), Ok(expected));
    assert_eq!(to_dtype(&Native::Sequence(vec![])), Ok(DType::Array(vec![])));
}

#[test]
fn variants_are_keyed_by_their_name() {
    assert_eq!(
        to_dtype(&Native::UnitVariant { name: s("E"), variant_index: 0, variant: s("A") }),
        Ok(DType::String(s("A")))
    );
    assert_eq!(
        to_dtype(&Native::NewtypeVariant {
            name: s("E"),
            variant_index: 1,
            variant: s("N"),
            value: Box::new(Native::U8(5)),
        }),
        Ok(object(vec![("N", num(5))]))
    );
    assert_eq!(
        to_dtype(&Native::TupleVariant {
            name: s("E"),
            variant_index: 2,
            variant: s("T"),
            fields: vec![Native::U8(1), Native::U8(2)],
        }),
        Ok(object(vec![("T", DType::Array(vec![num(1), num(2)]))]))
    );
    assert_eq!(
        to_dtype(&Native::StructVariant {
            name: s("E"),
            variant_index: 3,
            variant: s("S"),
            fields: vec![(s("x"), Native::U8(1)), (s("y"), Native::Bool(true))],
        }),
        Ok(object(vec![("S", object(vec![("x", num(1)), ("y", DType::Boolean(true))]))]))
    );
}

#[test]
fn structs_build_objects_of_their_fields() {
    let point = Native::Struct {
        name: s("Point"),
        fields: vec![(s("y"), Native::I32(-2)), (s("x"), Native::I32(1))],
    };
    let built = to_dtype(&point).unwrap();
    assert_eq!(built, object(vec![("x", num(1)), ("y", DType::Number(Number::from_i64(-2)))]));
    assert_eq!(built.as_object().unwrap().keys().clone(), vec![s("x"), s("y")]);
}

#[test]
fn map_keys_coerce_to_strings() {
    let map = Native::Mapping(vec![
        (Native::Str(s("name")), Native::U8(1)),
        (Native::Char('c'), Native::U8(2)),
        (Native::I32(-12), Native::U8(3)),
        (Native::U64(u64::MAX), Native::U8(4)),
        (Native::I64(i64::MIN), Native::U8(5)),
        (Native::U8(0), Native::U8(6)),
        (Native::UnitVariant { name: s("E"), variant_index: 0, variant: s("Red") }, Native::U8(7)),
        (Native::NewtypeStruct { name: s("Id"), value: Box::new(Native::U16(9)) }, Native::U8(8)),
    ]);
    let built = to_dtype(&map).unwrap();
    let expected = object(vec![
        ("name", num(1)),
        ("c", num(2)),
        ("-12", num(3)),
        ("18446744073709551615", num(4)),
        ("-9223372036854775808", num(5)),
        ("0", num(6)),
        ("Red", num(7)),
        ("9", num(8)),
    ]);
    assert_eq!(built, expected);
}

#[test]
fn later_entries_override_earlier_ones() {
    let map = Native::Mapping(vec![
        (Native::Str(s("k")), Native::U8(1)),
        (Native::U8(1), Native::U8(2)),
        (Native::Str(s("1")), Native::U8(3)),
        (Native::Str(s("k")), Native::U8(4)),
    ]);
    assert_eq!(to_dtype(&map), Ok(object(vec![("1", num(3)), ("k", num(4))])));
}

#[test]
fn keys_that_are_sequences_are_refused() {
    let map = Native::Mapping(vec![(Native::Sequence(vec![Native::U8(32), Native::U8(64)]), Native::Str(s("x86")))]);
    let err = to_dtype(&map).unwrap_err();
    assert_eq!(err, Error { code: ErrorCode::KeyMustBeAString, line: 0, column: 0 });
    assert_eq!(err, key_must_be_a_string());
}

#[test]
fn keys_that_cannot_be_strings_are_refused() {
    let bad_keys = vec![
        Native::Bool(true),
        Native::F64(1.0f64.to_bits()),
        Native::Bytes(vec![1]),
        Native::Unit,
        Native::UnitStruct { name: s("U") },
        Native::Absent,
        Native::Present(Box::new(Native::Str(s("k")))),
        Native::Tuple(vec![]),
        Native::TupleStruct { name: s("T"), fields: vec![] },
        Native::Mapping(vec![]),
        Native::Struct { name: s("S"), fields: vec![] },
        Native::NewtypeVariant { name: s("E"), variant_index: 0, variant: s("V"), value: Box::new(Native::Unit) },
        Native::TupleVariant { name: s("E"), variant_index: 0, variant: s("V"), fields: vec![] },
        Native::StructVariant { name: s("E"), variant_index: 0, variant: s("V"), fields: vec![] },
        Native::NewtypeStruct { name: s("W"), value: Box::new(Native::Bool(false)) },
    ];
    for key in bad_keys {
        assert_eq!(MapKeySerializer.serialize(&key), Err(key_must_be_a_string()));
        let map = Native::Mapping(vec![(Native::Str(s("ok")), Native::U8(1)), (key, Native::U8(2))]);
        assert_eq!(to_dtype(&map), Err(key_must_be_a_string()));
    }
}

#[test]
fn a_bad_key_deep_inside_fails_the_whole() {
    let inner = Native::Mapping(vec![(Native::Bool(true), Native::Unit)]);
    let outer = Native::Struct {
        name: s("Outer"),
        fields: vec![(s("fine"), Native::U8(1)), (s("list"), Native::Sequence(vec![Native::Unit, inner]))],
    };
    assert_eq!(to_dtype(&outer), Err(key_must_be_a_string()));
    let in_variant = Native::NewtypeVariant {
        name: s("E"),
        variant_index: 0,
        variant: s("V"),
        value: Box::new(Native::Mapping(vec![(Native::Unit, Native::Unit)])),
    };
    assert_eq!(to_dtype(&in_variant), Err(key_must_be_a_string()));
}

#[test]
fn the_map_builder_takes_a_key_then_a_value() {
    let mut builder = Serializer.serialize_map(None).unwrap();
    builder.serialize_key(&Native::Str(s("a"))).unwrap();
    builder.serialize_value(&Native::U8(1)).unwrap();
    builder.serialize_entry(&Native::U8(2), &Native::Bool(true)).unwrap();
    assert_eq!(builder.serialize_key(&Native::Bool(true)), Err(key_must_be_a_string()));
    builder.serialize_field("f", &Native::Unit).unwrap();
    assert_eq!(
        builder.end(),
        Ok(object(vec![("2", DType::Boolean(true)), ("a", num(1)), ("f", DType::Null)]))
    );
}

#[test]
fn the_sequence_builders_collect_in_order() {
    let mut seq = Serializer.serialize_seq(Some(2)).unwrap();
    seq.serialize_element(&Native::U8(1)).unwrap();
    seq.serialize_field(&Native::U8(2)).unwrap();
    assert_eq!(seq.end(), Ok(DType::Array(vec![num(1), num(2)])));
    let mut tuple = Serializer.serialize_tuple(0).unwrap();
    assert_eq!(
        tuple.serialize_element(&Native::Mapping(vec![(Native::Unit, Native::Unit)])),
        Err(key_must_be_a_string())
    );
    assert_eq!(tuple.end(), Ok(DType::Array(vec![])));
    let mut variant = Serializer.serialize_tuple_variant("E", 0, "V", 1).unwrap();
    variant.serialize_field(&Native::Bool(true)).unwrap();
    assert_eq!(variant.end(), Ok(object(vec![("V", DType::Array(vec![DType::Boolean(true)]))])));
    let mut fields = Serializer.serialize_struct_variant("E", 0, "V", 1).unwrap();
    fields.serialize_field("x", &Native::Bool(true)).unwrap();
    assert_eq!(fields.end(), Ok(object(vec![("V", object(vec![("x", DType::Boolean(true))]))])));
    assert_eq!(Serializer.serialize_struct("S", 0).unwrap().end(), Ok(object(vec![])));
    assert_eq!(Serializer.serialize_tuple_struct("S", 0).unwrap().end(), Ok(DType::Array(vec![])));
}

#[test]
fn the_shape_methods_build_their_shape() {
    assert_eq!(Serializer.serialize_unit_variant("E", 1, "B"), Ok(DType::String(s("B"))));
    assert_eq!(Serializer.serialize_unit_struct("U"), Ok(DType::Null));
    assert_eq!(Serializer.serialize_none(), Ok(DType::Null));
    assert_eq!(Serializer.serialize_some(&Native::U8(1)), Ok(num(1)));
    assert_eq!(Serializer.serialize_newtype_struct("N", &Native::U8(1)), Ok(num(1)));
    assert_eq!(Serializer.serialize_newtype_variant("E", 0, "V", &Native::U8(1)), Ok(object(vec![("V", num(1))])));
    assert_eq!(Serializer.collect_str("shown"), Ok(DType::String(s("shown"))));
    assert_eq!(Serializer.serialize_char('x'), Ok(DType::String(s("x"))));
    assert_eq!(invalid_raw_value(), Error { code: ErrorCode::ExpectedSomeDType, line: 0, column: 0 });
}

#[test]
fn values_show_by_their_variant() {
    assert_eq!(DType::Null.serialize(), Native::Unit);
    assert_eq!(DType::Boolean(true).serialize(), Native::Bool(true));
    assert_eq!(num(3).serialize(), Native::U64(3));
    assert_eq!(DType::Number(Number::from_i64(-3)).serialize(), Native::I64(-3));
    assert_eq!(DType::from_f64(1.5f64.to_bits()).serialize(), Native::F64(1.5f64.to_bits()));
    assert_eq!(DType::String(s("a")).serialize(), Native::Str(s("a")));
    assert_eq!(
        DType::Array(vec![DType::Null, num(1)]).serialize(),
        Native::Sequence(vec![Native::Unit, Native::U64(1)])
    );
    assert_eq!(
        object(vec![("b", num(1)), ("a", DType::Null)]).serialize(),
        Native::Mapping(vec![(Native::Str(s("a")), Native::Unit), (Native::Str(s("b")), Native::U64(1))])
    );
    assert_eq!(DType::DateTime(DateTime::new(s("2021-03-04T05:06:07Z"))).serialize(), Native::Str(s("2021-03-04T05:06:07Z")));
}

#[test]
fn building_what_a_value_shows_gives_the_value_back() {
    let samples = vec![
        DType::Null,
        DType::Boolean(false),
        num(0),
        num(u64::MAX),
        DType::Number(Number::from_i64(-1)),
        DType::Number(Number::from_i64(i64::MIN)),
        DType::from_f64(0.1f64.to_bits()),
        DType::from_f64((-0.0f64).to_bits()),
        DType::String(s("")),
        DType::String(s("päth/~")),
        DType::Array(vec![]),
        DType::Array(vec![DType::Null, DType::Array(vec![num(1)])]),
        object(vec![]),
        object(vec![("z", num(1)), ("a", object(vec![("k", DType::Array(vec![DType::Boolean(true)]))])), ("", DType::Null)]),
    ];
    for v in samples {
        let shown = v.serialize();
        let rebuilt = to_dtype(&shown).unwrap();
        assert_eq!(rebuilt, v);
        assert_eq!(rebuilt.serialize(), shown);
        let read = from_dtype(v.clone()).unwrap();
        assert_eq!(read, shown);
    }
}

#[test]
fn a_point_in_time_reads_back_as_its_text() {
    let v = DType::DateTime(DateTime::new(s("2021-03-04")));
    assert_eq!(to_dtype(&v.serialize()), Ok(DType::String(s("2021-03-04"))));
    assert_eq!(DateTime::new(s("2021-03-04")).as_str(), "2021-03-04");
}

#[test]
fn native_values_name_their_shape() {
    assert_eq!(Native::Bool(true).unexpected(), Unexpected::Bool(true));
    assert_eq!(Native::I8(-1).unexpected(), Unexpected::Signed(-1));
    assert_eq!(Native::U32(1).unexpected(), Unexpected::Unsigned(1));
    assert_eq!(Native::F64(7).unexpected(), Unexpected::Float(7));
    assert_eq!(Native::Char('c').unexpected(), Unexpected::Char('c'));
    assert_eq!(Native::Str(s("x")).unexpected(), Unexpected::Str(s("x")));
    assert_eq!(Native::Bytes(vec![1]).unexpected(), Unexpected::Bytes(vec![1]));
    assert_eq!(Native::Absent.unexpected(), Unexpected::Optional);
    assert_eq!(Native::Unit.unexpected(), Unexpected::Unit);
    assert_eq!(Native::Sequence(vec![]).unexpected(), Unexpected::Sequence);
    assert_eq!(Native::Mapping(vec![]).unexpected(), Unexpected::Mapping);
    assert_eq!(Native::UnitVariant { name: s("E"), variant_index: 0, variant: s("V") }.unexpected(), Unexpected::Enum);
    assert_eq!(Native::NewtypeStruct { name: s("N"), value: Box::new(Native::Unit) }.unexpected(), Unexpected::NewtypeStruct);
}

#[test]
fn errors_carry_code_and_place() {
    let e = Error::syntax(ErrorCode::InvalidNumber, 3, 4);
    assert_eq!((e.line, e.column), (3, 4));
    assert_eq!(e.code, ErrorCode::InvalidNumber);
    assert_eq!(Error::custom("msg"), Error { code: ErrorCode::Message(s("msg")), line: 0, column: 0 });
}
