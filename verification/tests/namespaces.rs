use sage::vocab::{Namespace, NamespaceStore};

#[test]
fn store_registers_and_expands() {
    let mut ns = NamespaceStore::new();
    assert!(ns.is_empty());
    ns.add(&Namespace::from("rdf:type", "http://www.w3.org/1999/02/22-rdf-syntax-ns#type"));
    ns.add_prefix("schema:Thing", "https://schema.org/Thing");
    assert_eq!(ns.len(), 2);
    assert_eq!(ns.full_iri("rdf:type"), "http://www.w3.org/1999/02/22-rdf-syntax-ns#type");
    assert_eq!(ns.short_iri("https://schema.org/Thing"), "schema:Thing");
    assert_eq!(ns.full_iri("unknown"), "unknown");
    assert_eq!(ns.short_iri("unknown"), "unknown");
}
