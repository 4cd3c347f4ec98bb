use sage::text::{
    char_to_text, chars_of, compare_bytes, compare_keys, decimal_chars, i64_to_text, same_text, string_of,
    u64_to_text, Rank,
};
use sage::vocab::{Namespace, NamespaceStore, RdfVocab, RdfsVocab, SchemaVocab, Vocabulary, URI};

#[test]
fn bytes_compare_lexicographically() {
    let samples: [&[u8]; 8] = [b"", b"a", b"ab", b"b", b"aa", b"\xff", b"a\x00", b"B"];
    for a in samples.iter() {
        for b in samples.iter() {
            let expected = if a < b {
                Rank::Before
            } else if a == b {
                Rank::Same
            } else {
                Rank::After
            };
            assert_eq!(compare_bytes(a, b), expected);
        }
    }
}

#[test]
fn strings_compare_as_std_orders_them() {
    let samples = ["", "a", "é", "z", "\u{10000}", "\u{ffff}", "ab", "a\u{0}", "Z"];
    for a in samples.iter() {
        for b in samples.iter() {
            let expected = if a < b {
                Rank::Before
            } else if a == b {
                Rank::Same
            } else {
                Rank::After
            };
            assert_eq!(compare_keys(a, b), expected);
            assert_eq!(same_text(a, b), a == b);
        }
    }
}

#[test]
fn integers_are_written_in_decimal() {
    for u in [0u64, 1, 9, 10, 11, 99, 100, 101, 12345, u64::MAX, 1 << 63, 10000000000000000000] {
        assert_eq!(u64_to_text(u), u.to_string());
        let chars: String = decimal_chars(u).into_iter().collect();
        assert_eq!(chars, u.to_string());
    }
    for i in [0i64, 1, -1, -9, -10, 10, i64::MAX, i64::MIN, -1234567890] {
        assert_eq!(i64_to_text(i), i.to_string());
    }
}

#[test]
fn strings_and_characters_convert_back_and_forth() {
    for s in ["", "a", "héllo wörld", "\u{10000}x", "tab\tnew\nline"] {
        let chars = chars_of(s);
        let expected: Vec<char> = s.chars().collect();
        assert_eq!(chars, expected);
        assert_eq!(string_of(&chars), s);
    }
    assert_eq!(char_to_text('ß'), "ß");
    assert_eq!(string_of(&['a', 'b']), "ab");
}

#[test]
fn identifiers_expand_against_their_context() {
    let val = URI::new("https://schema.org", "Person");
    assert_eq!(val.context(), "https://schema.org");
    assert_eq!(val.short(), "Person");
    assert_eq!(val.expand(), "https://schema.org/Person");
    assert_eq!(URI::new("https://schema.org///", "Person").expand(), "https://schema.org/Person");
    assert_eq!(URI::new("", "Person").expand(), "/Person");
    assert_eq!(URI::new("///", "").expand(), "/");
    assert_eq!(URI::new("a/b", "c/").expand(), "a/b/c/");
}

#[test]
fn vocabularies_name_their_prefix_and_full_form() {
    assert_eq!(RdfVocab::prefix(), "rdf:");
    assert_eq!(RdfVocab::full(), "http://www.w3.org/1999/02/22-rdf-syntax-ns#");
    assert_eq!(RdfsVocab::prefix(), "rdfs:");
    assert_eq!(RdfsVocab::full(), "http://www.w3.org/2000/01/rdf-schema#");
    assert_eq!(SchemaVocab::prefix(), "schema:");
    assert_eq!(SchemaVocab::full(), "https://schema.org/");
    assert_eq!(<sage::voc::RdfVoc as sage::voc::Vocabulary>::prefix(), "rdf:");
    assert_eq!(<sage::voc::RdfsVoc as sage::voc::Vocabulary>::full(), "http://www.w3.org/2000/01/rdf-schema#");
    assert_eq!(<sage::voc::SchemaVoc as sage::voc::Vocabulary>::prefix(), "schema:");
}

#[test]
fn namespaces_keep_prefix_and_full_form() {
    let ns = Namespace::new("rdf:type", "http://www.w3.org/1999/02/22-rdf-syntax-ns#type");
    assert_eq!(ns.prefix(), "rdf:type");
    assert_eq!(ns.full(), "http://www.w3.org/1999/02/22-rdf-syntax-ns#type");
    assert_eq!(Namespace::from("a", "b"), Namespace::new("a", "b"));
    assert_eq!(ns.clone(), ns);
    let d = Namespace::default();
    assert_eq!(d.prefix(), "schema:Thing");
    assert_eq!(d.full(), "https://schema.org/Thing");
    let s = sage::schema::Namespace::from("p", "f");
    assert_eq!((s.prefix(), s.full()), ("p", "f"));
    assert_eq!(sage::schema::Namespace::new("p", "f"), s);
}

#[test]
fn the_default_store_knows_three_vocabularies() {
    let ns = NamespaceStore::default();
    assert_eq!(ns.len(), 3);
    assert_eq!(ns.full_iri("rdf:"), "http://www.w3.org/1999/02/22-rdf-syntax-ns#");
    assert_eq!(ns.short_iri("https://schema.org/"), "schema:");
    assert_eq!(ns.short_iri("http://www.w3.org/2000/01/rdf-schema#"), "rdfs:");
    let names: Vec<String> = ns.list().iter().map(|n| n.prefix().to_string()).collect();
    assert_eq!(names, vec!["rdf:", "rdfs:", "schema:"]);
    let other = sage::schema::Namespaces::default();
    assert_eq!(other.len(), 3);
    assert_eq!(other.full_iri("schema:"), "https://schema.org/");
    assert!(!other.is_empty());
    assert!(sage::schema::Namespaces::new().is_empty());
}

#[test]
fn a_prefix_is_registered_once() {
    let mut ns = NamespaceStore::new();
    ns.add_prefix("a", "one");
    ns.add_prefix("b", "two");
    ns.add_prefix("a", "three");
    assert_eq!(ns.len(), 2);
    assert_eq!(ns.full_iri("a"), "three");
    assert_eq!(ns.short_iri("one"), "one");
    assert_eq!(ns.short_iri("three"), "a");
    let list = ns.list();
    assert!(list.contains(&Namespace::from("a", "three")));
    assert!(list.contains(&Namespace::from("b", "two")));
    assert_eq!(list.len(), 2);
}

#[test]
fn the_earliest_prefix_contracts_a_full_form() {
    let mut ns = NamespaceStore::new();
    ns.add_multiple(&[Namespace::from("x", "same"), Namespace::from("y", "same"), Namespace::from("z", "else")]);
    assert_eq!(ns.len(), 3);
    assert_eq!(ns.short_iri("same"), "x");
    assert_eq!(ns.short_iri("else"), "z");
    let mut other = sage::schema::Namespaces::new();
    other.add_multiple(&[sage::schema::Namespace::from("x", "same"), sage::schema::Namespace::from("y", "same")]);
    other.add(&sage::schema::Namespace::from("q", "r"));
    other.add_prefix("s", "t");
    assert_eq!(other.len(), 4);
    assert_eq!(other.short_iri("same"), "x");
    assert_eq!(other.list().len(), 4);
}

#[test]
fn stores_compare_by_what_they_hold() {
    let mut one = NamespaceStore::new();
    one.add_prefix("a", "1");
    one.add_prefix("b", "2");
    let mut two = NamespaceStore::new();
    two.add_prefix("b", "2");
    two.add_prefix("a", "1");
    assert_eq!(one, two);
    assert_eq!(one.clone(), one);
    two.add_prefix("a", "3");
    assert_ne!(one, two);
    two.add_prefix("a", "1");
    two.add_prefix("c", "3");
    assert_ne!(one, two);
}
