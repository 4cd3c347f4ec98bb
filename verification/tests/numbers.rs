use sage::dtype::float::integer_bits;
use sage::dtype::number::NumImpl;
use sage::dtype::partial_eq::{eq_bool, eq_f64, eq_i64, eq_str, eq_u64};
use sage::dtype::{DType, Number, OrderedMap};
use sage::dtype::ops::Native;
use sage::error::{ErrorCode, Unexpected};

#[test]
fn from_f64_refuses_nan_and_infinity() {
    assert!(Number::from_f64(f64::NAN.to_bits()).is_none());
    assert!(Number::from_f64(f64::INFINITY.to_bits()).is_none());
    assert!(Number::from_f64(f64::NEG_INFINITY.to_bits()).is_none());
    assert!(Number::from_f64((-f64::NAN).to_bits()).is_none());
    assert!(Number::from_f64(256.0f64.to_bits()).is_some());
}

#[test]
fn finite_floats_come_back_as_they_went_in() {
    for f in [0.0f64, -0.0, 1.0, -1.5, 256.0, 3.14, f64::MAX, f64::MIN, f64::MIN_POSITIVE, 5e-324, 1e300] {
        let n = Number::from_f64(f.to_bits()).unwrap();
        assert_eq!(n.as_f64(), Some(f.to_bits()));
        assert_eq!(n.as_f64().map(f64::from_bits).map(f64::to_bits), Some(f.to_bits()));
        assert!(n.is_f64());
        assert!(!n.is_i64());
        assert!(!n.is_u64());
        assert_eq!(n.as_i64(), None);
        assert_eq!(n.as_u64(), None);
    }
}

#[test]
fn exactly_one_classification_holds() {
    let samples = [
        Number::from_u64(0),
        Number::from_u64(65),
        Number::from_u64(u64::MAX),
        Number::from_i64(-1),
        Number::from_i64(i64::MIN),
        Number::from_i64(7),
        Number::from_f64(2.5f64.to_bits()).unwrap(),
    ];
    for n in samples.iter() {
        let count = [n.is_i64(), n.is_u64(), n.is_f64()].iter().filter(|b| **b).count();
        assert_eq!(count, 1);
    }
    assert!(Number::from_i64(-1).is_i64());
    assert!(Number::from_i64(7).is_u64());
    assert!(Number::from_u64(7).is_u64());
}

#[test]
fn integers_convert_without_loss_or_not_at_all() {
    assert_eq!(Number::from_u64(65).as_i64(), Some(65));
    assert_eq!(Number::from_u64(65).as_u64(), Some(65));
    assert_eq!(Number::from_i64(-65).as_i64(), Some(-65));
    assert_eq!(Number::from_i64(-65).as_u64(), None);
    let big = i64::MAX as u64 + 10;
    assert_eq!(Number::from_u64(big).as_i64(), None);
    assert_eq!(Number::from_u64(big).as_u64(), Some(big));
    assert_eq!(Number::from_u64(i64::MAX as u64).as_i64(), Some(i64::MAX));
    assert_eq!(Number::from_i64(i64::MIN).as_i64(), Some(i64::MIN));
}

#[test]
fn integers_as_floats_are_exact() {
    for u in [0u64, 1, 2, 3, 65, 255, 1 << 52, (1 << 53) - 1, 1 << 53, 1 << 63, 3 << 62, ((1u64 << 53) - 1) << 11, 12345678901234] {
        assert_eq!(Number::from_u64(u).as_f64(), Some((u as f64).to_bits()));
        assert_eq!((u as f64) as u64, u);
    }
    for i in [-1i64, -2, -65, -(1 << 53), i64::MIN, -(1 << 52) - 1, -4503599627370497] {
        assert_eq!(Number::from_i64(i).as_f64(), Some((i as f64).to_bits()));
    }
    assert_eq!(Number::from_u64(65).as_f64(), Some(65.0f64.to_bits()));
    assert_eq!(Number::from_i64(-65).as_f64(), Some((-65.0f64).to_bits()));
}

#[test]
fn integers_without_an_exact_float_have_none() {
    assert_eq!(Number::from_u64((1 << 53) + 1).as_f64(), None);
    assert_eq!(Number::from_u64(u64::MAX).as_f64(), None);
    assert_eq!(Number::from_i64(-(1 << 53) - 1).as_f64(), None);
    assert_eq!(Number::from_i64(i64::MAX).as_f64(), None);
    assert_eq!(Number::from_u64((1 << 54) + 2).as_f64(), None);
    assert_eq!(Number::from_u64((1 << 54) + 4).as_f64(), Some((((1u64 << 54) + 4) as f64).to_bits()));
}

#[test]
fn integer_bits_sets_the_sign() {
    assert_eq!(integer_bits(0, false), Some(0));
    assert_eq!(integer_bits(1, false), Some(1.0f64.to_bits()));
    assert_eq!(integer_bits(1, true), Some((-1.0f64).to_bits()));
    assert_eq!(integer_bits(10, true), Some((-10.0f64).to_bits()));
}

#[test]
fn numbers_compare_by_value() {
    assert_eq!(Number::from_u64(5), Number::from_i64(5));
    assert_ne!(Number::from_u64(5), Number::from_u64(6));
    assert_ne!(Number::from_u64(5), Number::from_f64(5.0f64.to_bits()).unwrap());
    assert_eq!(Number::from_f64(0.0f64.to_bits()).unwrap(), Number::from_f64((-0.0f64).to_bits()).unwrap());
    assert_eq!(Number::from_f64(1.5f64.to_bits()).unwrap(), Number::from_f64(1.5f64.to_bits()).unwrap());
    assert_ne!(Number::from_f64(1.5f64.to_bits()).unwrap(), Number::from_f64((-1.5f64).to_bits()).unwrap());
    assert_eq!(NumImpl::PositiveInt(3), NumImpl::PositiveInt(3));
    assert_ne!(NumImpl::PositiveInt(3), NumImpl::NegativeInt(-3));
}

#[test]
fn numbers_from_native_integers() {
    assert_eq!(Number::from(7u8), Number::from_u64(7));
    assert_eq!(Number::from(7u16), Number::from_u64(7));
    assert_eq!(Number::from(7u32), Number::from_u64(7));
    assert_eq!(Number::from(7u64), Number::from_u64(7));
    assert_eq!(Number::from(7usize), Number::from_u64(7));
    assert_eq!(Number::from(-7i8), Number::from_i64(-7));
    assert_eq!(Number::from(-7i16), Number::from_i64(-7));
    assert_eq!(Number::from(-7i32), Number::from_i64(-7));
    assert_eq!(Number::from(-7i64), Number::from_i64(-7));
    assert_eq!(Number::from(-7isize), Number::from_i64(-7));
    assert!(Number::from(7i32).is_u64());
    assert!(Number::from(-7i32).is_i64());
    assert_eq!(Number::from(i8::MIN).as_i64(), Some(-128));
}

#[test]
fn number_text_is_decimal() {
    assert_eq!(Number::from_u64(0).integer_text(), Some("0".to_string()));
    assert_eq!(Number::from_u64(u64::MAX).integer_text(), Some(u64::MAX.to_string()));
    assert_eq!(Number::from_i64(i64::MIN).integer_text(), Some(i64::MIN.to_string()));
    assert_eq!(Number::from_i64(-40).integer_text(), Some("-40".to_string()));
    assert_eq!(Number::from_f64(1.0f64.to_bits()).unwrap().integer_text(), None);
}

#[test]
fn numbers_are_read_from_native_integers_and_floats() {
    assert_eq!(Number::deserialize(&Native::U8(3)).unwrap(), Number::from_u64(3));
    assert_eq!(Number::deserialize(&Native::U64(u64::MAX)).unwrap(), Number::from_u64(u64::MAX));
    assert_eq!(Number::deserialize(&Native::I16(-3)).unwrap(), Number::from_i64(-3));
    assert_eq!(Number::deserialize(&Native::I64(3)).unwrap(), Number::from_u64(3));
    assert_eq!(
        Number::deserialize(&Native::F64(2.5f64.to_bits())).unwrap().as_f64(),
        Some(2.5f64.to_bits())
    );
    let nan = Number::deserialize(&Native::F64(f64::NAN.to_bits())).unwrap_err();
    assert_eq!(nan.code, ErrorCode::Message("not a JSON number".to_string()));
    let wrong = Number::deserialize(&Native::Str("1".to_string())).unwrap_err();
    assert_eq!(
        wrong.code,
        ErrorCode::InvalidType { unexpected: Unexpected::Str("1".to_string()), expected: "a JSON number".to_string() }
    );
    let wrong = Number::deserialize(&Native::Bool(true)).unwrap_err();
    assert_eq!(
        wrong.code,
        ErrorCode::InvalidType { unexpected: Unexpected::Bool(true), expected: "a JSON number".to_string() }
    );
}

#[test]
fn numbers_show_as_their_representation() {
    assert_eq!(Number::from_u64(3).serialize(), Native::U64(3));
    assert_eq!(Number::from_i64(-3).serialize(), Native::I64(-3));
    assert_eq!(Number::from_f64(0.5f64.to_bits()).unwrap().serialize(), Native::F64(0.5f64.to_bits()));
    assert_eq!(Number::from_u64(3).unexpected(), Unexpected::Unsigned(3));
    assert_eq!(Number::from_i64(-3).unexpected(), Unexpected::Signed(-3));
    assert_eq!(Number::from_f64(0.5f64.to_bits()).unwrap().unexpected(), Unexpected::Float(0.5f64.to_bits()));
}

#[test]
fn values_answer_for_their_variant() {
    let n = DType::Number(Number::from_u64(65));
    assert!(n.is_number() && n.is_u64() && !n.is_i64() && !n.is_f64());
    assert_eq!(n.as_u64(), Some(65));
    assert_eq!(n.as_i64(), Some(65));
    assert_eq!(n.as_f64(), Some(65.0f64.to_bits()));
    let neg = DType::Number(Number::from_i64(-65));
    assert!(neg.is_i64() && !neg.is_u64());
    assert_eq!(neg.as_u64(), None);
    let f = DType::from_f64(256.0f64.to_bits());
    assert!(f.is_f64());
    assert_eq!(f.as_f64(), Some(256.0f64.to_bits()));
    assert_eq!(f.as_i64(), None);
    assert_eq!(DType::from_f64(f64::NAN.to_bits()), DType::Null);
    let s = DType::from_str("some string");
    assert!(s.is_string());
    assert_eq!(s.as_str(), Some("some string"));
    assert_eq!(s.as_bool(), None);
    assert_eq!(s.as_f64(), None);
    let b = DType::Boolean(false);
    assert!(b.is_bool());
    assert_eq!(b.as_bool(), Some(false));
    assert!(DType::Null.is_null());
    assert_eq!(DType::Null.as_null(), Some(()));
    assert_eq!(b.as_null(), None);
    let a = DType::Array(vec![DType::Null]);
    assert!(a.is_array() && !a.is_object());
    assert_eq!(a.as_array().unwrap().len(), 1);
    assert_eq!(a.as_object(), None);
    let o = DType::Object(OrderedMap::new());
    assert!(o.is_object() && !o.is_array());
    assert_eq!(o.as_object().unwrap().len(), 0);
    assert_eq!(DType::default(), DType::Null);
}

#[test]
fn values_change_through_their_accessors() {
    let mut a = DType::Array(vec![DType::Null]);
    a.as_array_mut().unwrap().push(DType::Boolean(true));
    assert_eq!(a, DType::Array(vec![DType::Null, DType::Boolean(true)]));
    assert!(a.as_object_mut().is_none());
    let mut o = DType::Object(OrderedMap::new());
    o.as_object_mut().unwrap().insert("k".to_string(), DType::Null);
    assert_eq!(o.as_object().unwrap().len(), 1);
    assert!(o.as_array_mut().is_none());
}

#[test]
fn values_compare_with_plain_values() {
    let n = DType::from(65u8);
    assert!(eq_u64(&n, 65));
    assert!(eq_i64(&n, 65));
    assert!(!eq_i64(&n, -65));
    assert!(eq_f64(&n, 65.0f64.to_bits()));
    assert!(!eq_f64(&n, 65.5f64.to_bits()));
    assert!(!eq_f64(&n, f64::NAN.to_bits()));
    assert!(eq_f64(&DType::from_f64(0.0f64.to_bits()), (-0.0f64).to_bits()));
    assert!(!eq_f64(&DType::Null, 0.0f64.to_bits()));
    assert!(eq_bool(&DType::from(true), true));
    assert!(!eq_bool(&DType::from(true), false));
    assert!(eq_str(&DType::from("a".to_string()), "a"));
    assert!(!eq_str(&DType::from("a".to_string()), "b"));
    assert!(!eq_str(&n, "65"));
    assert!(n == 65u8 && n == 65i32 && n == 65u64 && n == 65usize);
    assert!(DType::from(-3i64) == -3i8);
    assert!(!(DType::from(-3i64) == 3u8));
    assert!(DType::from_str("x") == *"x");
    assert!(DType::from_str("x") == "x".to_string());
    assert!(DType::from(false) == false);
    assert_eq!(DType::from(()), DType::Null);
    assert_eq!(DType::from(Number::from_u64(1)), DType::Number(Number::from_u64(1)));
    assert_eq!(DType::from(vec![DType::Null]), DType::Array(vec![DType::Null]));
    assert_eq!(DType::from(OrderedMap::new()), DType::Object(OrderedMap::new()));
}
