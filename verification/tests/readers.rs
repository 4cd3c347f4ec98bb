use sage::dtype::{DType, DateTime, Number, OrderedMap};
use sage::error::{Error, ErrorCode, Unexpected};

fn mismatch(unexpected: Unexpected, expected: &str) -> Error {
    Error { code: ErrorCode::InvalidType { unexpected, expected: expected.to_string() }, line: 0, column: 0 }
}

fn misfit(unexpected: Unexpected, expected: &str) -> Error {
    Error { code: ErrorCode::InvalidValue { unexpected, expected: expected.to_string() }, line: 0, column: 0 }
}

#[test]
fn a_number_is_not_read_as_a_string() {
    let n = DType::Number(Number::from_u64(12));
    assert_eq!(n.deserialize_string(), Err(mismatch(Unexpected::Unsigned(12), "a string")));
    assert_eq!(DType::from_str("12").deserialize_string(), Ok("12".to_string()));
    assert_eq!(DType::DateTime(DateTime::new("2021-01-01".to_string())).deserialize_string(), Ok("2021-01-01".to_string()));
    assert_eq!(DType::Null.deserialize_string(), Err(mismatch(Unexpected::Unit, "a string")));
}

#[test]
fn a_string_is_not_read_as_a_number() {
    let s = DType::from_str("12");
    assert_eq!(s.deserialize_u64(), Err(mismatch(Unexpected::Str("12".to_string()), "u64")));
    assert_eq!(s.deserialize_i64(), Err(mismatch(Unexpected::Str("12".to_string()), "i64")));
    assert_eq!(s.deserialize_f64(), Err(mismatch(Unexpected::Str("12".to_string()), "f64")));
    assert_eq!(s.deserialize_bool(), Err(mismatch(Unexpected::Str("12".to_string()), "a boolean")));
}

#[test]
fn numbers_are_read_without_rounding() {
    let small = DType::Number(Number::from_u64(12));
    let negative = DType::Number(Number::from_i64(-12));
    let big = DType::Number(Number::from_u64(u64::MAX));
    let float = DType::from_f64(1.5f64.to_bits());
    assert_eq!(small.deserialize_u64(), Ok(12));
    assert_eq!(small.deserialize_i64(), Ok(12));
    assert_eq!(small.deserialize_f64(), Ok(12.0f64.to_bits()));
    assert_eq!(negative.deserialize_i64(), Ok(-12));
    assert_eq!(negative.deserialize_u64(), Err(mismatch(Unexpected::Signed(-12), "u64")));
    assert_eq!(negative.deserialize_f64(), Ok((-12.0f64).to_bits()));
    assert_eq!(big.deserialize_u64(), Ok(u64::MAX));
    assert_eq!(big.deserialize_i64(), Err(misfit(Unexpected::Unsigned(u64::MAX), "i64")));
    assert_eq!(big.deserialize_f64(), Err(misfit(Unexpected::Unsigned(u64::MAX), "f64")));
    assert_eq!(float.deserialize_f64(), Ok(1.5f64.to_bits()));
    assert_eq!(float.deserialize_u64(), Err(mismatch(Unexpected::Float(1.5f64.to_bits()), "u64")));
    assert_eq!(float.deserialize_i64(), Err(mismatch(Unexpected::Float(1.5f64.to_bits()), "i64")));
}

#[test]
fn each_shape_is_read_as_itself_only() {
    let array = DType::Array(vec![DType::Null]);
    let object = DType::Object(OrderedMap::new());
    assert_eq!(DType::Boolean(true).deserialize_bool(), Ok(true));
    assert_eq!(DType::Null.deserialize_bool(), Err(mismatch(Unexpected::Unit, "a boolean")));
    assert_eq!(DType::Null.deserialize_unit(), Ok(()));
    assert_eq!(DType::Boolean(false).deserialize_unit(), Err(mismatch(Unexpected::Bool(false), "unit")));
    assert_eq!(array.deserialize_seq().map(|v| v.len()), Ok(1));
    assert_eq!(object.deserialize_seq().map(|v| v.len()), Err(mismatch(Unexpected::Mapping, "a sequence")));
    assert_eq!(object.deserialize_map().map(|m| m.len()), Ok(0));
    assert_eq!(array.deserialize_map().map(|m| m.len()), Err(mismatch(Unexpected::Sequence, "a map")));
    assert_eq!(array.unexpected(), Unexpected::Sequence);
    assert_eq!(array.invalid_type("a map"), mismatch(Unexpected::Sequence, "a map"));
    assert_eq!(Error::invalid_value(Unexpected::Unit, "x"), misfit(Unexpected::Unit, "x"));
}
