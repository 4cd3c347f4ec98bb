use sage::dtype::ops::ser::to_dtype;
use sage::dtype::ops::Native;
use sage::dtype::pointer::{parse_index, replace_chars, split_chars, unescape_chars};
use sage::dtype::{DType, Number, OrderedMap};

fn text(s: &str) -> DType {
    DType::String(s.to_string())
}

fn chars(s: &str) -> Vec<char> {
    s.chars().collect()
}

fn sample() -> DType {
    let mut inner = OrderedMap::new();
    inner.insert("b".to_string(), DType::Array(vec![text("x"), text("y"), text("z")]));
    let mut outer = OrderedMap::new();
    outer.insert("a".to_string(), DType::Object(inner));
    DType::Object(outer)
}

#[test]
fn empty_pointer_is_the_root() {
    let v = sample();
    assert_eq!(v.pointer(""), Some(&v));
    let scalar = DType::Boolean(true);
    assert_eq!(scalar.pointer(""), Some(&scalar));
}

#[test]
fn pointer_walks_objects_and_arrays() {
    let v = sample();
    assert_eq!(v.pointer("/a/b/1"), Some(&text("y")));
    assert_eq!(v.pointer("/a/b/0"), Some(&text("x")));
    assert_eq!(v.pointer("/a/b/2"), Some(&text("z")));
}

#[test]
fn pointer_to_nothing_is_none() {
    let v = sample();
    assert_eq!(v.pointer("/missing"), None);
    assert_eq!(v.pointer("/a/b/3"), None);
    assert_eq!(v.pointer("/a/b/1/deeper"), None);
    assert_eq!(v.pointer("a/b"), None);
    assert_eq!(v.pointer("/a/b/x"), None);
}

#[test]
fn array_segments_are_plain_decimal_indices() {
    let v = sample();
    assert_eq!(v.pointer("/a/b/01"), None);
    assert_eq!(v.pointer("/a/b/+1"), None);
    assert_eq!(v.pointer("/a/b/0"), Some(&text("x")));
    assert_eq!(parse_index(&chars("01")), None);
    assert_eq!(parse_index(&chars("+1")), None);
    assert_eq!(parse_index(&chars("0")), Some(0));
    assert_eq!(parse_index(&chars("")), None);
    assert_eq!(parse_index(&chars("12")), Some(12));
    assert_eq!(parse_index(&chars("1a")), None);
    assert_eq!(parse_index(&chars("-1")), None);
    assert_eq!(parse_index(&chars("18446744073709551615")), "18446744073709551615".parse::<usize>().ok());
    assert_eq!(parse_index(&chars("18446744073709551616")), None);
    assert_eq!(parse_index(&chars("99999999999999999999999")), None);
}

#[test]
fn segments_are_unescaped() {
    let mut map = OrderedMap::new();
    map.insert("a/b".to_string(), DType::Boolean(true));
    map.insert("m~n".to_string(), DType::Boolean(false));
    map.insert("~1".to_string(), DType::Null);
    map.insert("".to_string(), text("empty"));
    let v = DType::Object(map);
    assert_eq!(v.pointer("/a~1b"), Some(&DType::Boolean(true)));
    assert_eq!(v.pointer("/m~0n"), Some(&DType::Boolean(false)));
    assert_eq!(v.pointer("/~01"), Some(&DType::Null));
    assert_eq!(v.pointer("/"), Some(&text("empty")));
    assert_eq!(v.pointer("/a/b"), None);
}

#[test]
fn unescape_agrees_with_replace() {
    for s in ["", "~", "~0", "~1", "~01", "~10", "a~1b~0c", "~~1", "~1~1", "x~", "~0~0~1", "~2"] {
        let expected = s.replace("~1", "/").replace("~0", "~");
        let got: String = unescape_chars(&chars(s)).into_iter().collect();
        assert_eq!(got, expected);
    }
    let got: String = replace_chars(&chars("aaa"), 'a', 'a', 'b').into_iter().collect();
    assert_eq!(got, "aaa".replace("aa", "b"));
}

#[test]
fn split_agrees_with_split() {
    for s in ["", "/", "a", "/a", "a/", "/a/b", "//", "a//b/"] {
        let expected: Vec<String> = s.split('/').map(|x| x.to_string()).collect();
        let got: Vec<String> = split_chars(&chars(s), '/').into_iter().map(|x| x.into_iter().collect()).collect();
        assert_eq!(got, expected);
    }
}

#[test]
fn pointer_mut_changes_the_target() {
    let mut v = sample();
    *v.pointer_mut("/a/b/1").unwrap() = DType::Number(Number::from_u64(7));
    assert_eq!(v.pointer("/a/b/1"), Some(&DType::Number(Number::from_u64(7))));
    assert_eq!(v.pointer("/a/b/0"), Some(&text("x")));
    assert!(v.pointer_mut("/a/c").is_none());
    assert!(v.pointer_mut("/a/b/7").is_none());
    assert!(v.pointer_mut("x").is_none());
    let copy = sample();
    let mut w = sample();
    assert!(w.pointer_mut("/nope").is_none());
    assert_eq!(w, copy);
    *w.pointer_mut("").unwrap() = DType::Null;
    assert_eq!(w, DType::Null);
}

#[test]
fn take_leaves_null() {
    let mut v = text("y");
    assert_eq!(v.take(), text("y"));
    assert_eq!(v, DType::Null);
    let mut obj = sample();
    let taken = obj.pointer_mut("/a/b/1").map(DType::take).unwrap();
    assert_eq!(taken, text("y"));
    assert_eq!(obj.pointer("/a/b/1"), Some(&DType::Null));
}

#[test]
fn built_values_can_be_walked() {
    let native = Native::Struct {
        name: "Point".to_string(),
        fields: vec![("x".to_string(), Native::I32(-3)), ("y".to_string(), Native::Tuple(vec![Native::U8(1), Native::Bool(false)]))],
    };
    let v = to_dtype(&native).unwrap();
    assert_eq!(v.pointer("/x"), Some(&DType::Number(Number::from_i64(-3))));
    assert_eq!(v.pointer("/y/1"), Some(&DType::Boolean(false)));
}
