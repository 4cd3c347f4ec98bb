use sage::dtype::DType;
use sage::error::ErrorCode;
use sage::graph::node::{NodeId, NodeImpl, NodeStore as Store};
use sage::graph::predicate::{PredicateId, PredicateImpl};
use sage::graph::triple::TripleId;
use sage::graph::{Connection, Node, NodeStore, Predicate, Triple};
use sage::vocab::Namespace;

#[test]
fn connections_know_their_kind() {
    assert!(Connection::Forward.is_forward());
    assert!(!Connection::Forward.is_shared());
    assert!(Connection::Shared.is_shared());
    assert!(Connection::Relational.is_relational());
    assert!(Connection::Multiple.is_multiple());
    assert!(!Connection::Multiple.is_forward());
    assert_eq!(Connection::Forward.to_string(), "Forward");
    assert_eq!(Connection::Shared.to_string(), "Shared");
    assert_eq!(Connection::Relational.to_string(), "Relational");
    assert_eq!(Connection::Multiple.to_string(), "Multiple");
}

#[test]
fn nodes_know_their_kind() {
    assert!(Node::Blank.is_blank());
    assert!(!Node::Schema.is_blank());
    assert!(Node::Schema.is_schema());
    assert!(Node::Http("https://schema.org/Person".to_string()).is_http());
    assert!(!Node::Blank.is_http());
    let john = Node::Literal(DType::String("John Doe".to_string()));
    assert!(john.is_literal());
    assert_eq!(john.get_type(), &john);
    assert_eq!(Node::Blank.get_type(), &Node::Blank);
    let many = Node::Multiple(vec![Node::Literal(DType::from_str("Rust")), Node::Literal(DType::from_str("Java"))]);
    assert!(many.is_multiple());
    assert!(!many.is_literal());
}

#[test]
fn node_stores_start_empty() {
    let nodes = NodeStore::new();
    assert_eq!(nodes.len(), 0);
    assert!(nodes.is_empty());
    assert_eq!(nodes.nodes().len(), 0);
    assert!(Store::default().is_empty());
    assert_eq!(sage::graph::node::node::NodeStore::new().len(), 0);
    assert_eq!(sage::graph::node::node::NodeStore::new().nodes().len(), 0);
    assert!(sage::graph::node::node_impl::NodeStore::new().is_empty());
    assert_eq!(sage::graph::node::node_impl::NodeStore::new().len(), 0);
}

#[test]
fn node_ids_have_the_form_of_an_identifier() {
    assert_eq!(NodeId::from_str("sg:N4286").unwrap().to_string(), "sg:N4286");
    assert_eq!(NodeId::from_str("sg:N0").unwrap().to_string(), "sg:N0");
    for bad in ["sg:N", "sg:P1", "sgN1", " sg:N1", "sg:N1 ", "sg:N12a", "", "SG:N1", "sg:N-1", "sg:N1\nx"] {
        let err = NodeId::from_str(bad).unwrap_err();
        assert_eq!((err.code, err.line, err.column), (ErrorCode::RegexParser, 189, 9));
    }
}

#[test]
fn node_ids_go_by_what_the_search_found() {
    assert_eq!(NodeId::from_search("anything", Some(true)).unwrap().to_string(), "anything");
    assert!(NodeId::from_search("sg:N1", Some(false)).is_err());
    assert!(NodeId::from_search("sg:N1", None).is_err());
}

#[test]
fn the_next_id_adds_a_one() {
    let id = NodeId::from_str("sg:N4").unwrap();
    assert_eq!(id.try_next().unwrap().to_string(), "sg:N41");
    assert_eq!(id.next().unwrap().to_string(), "sg:N41");
    let p = PredicateId::from_str("sg:P8080").unwrap();
    assert_eq!(p.try_next().unwrap(), PredicateId::from_str("sg:P80801").unwrap());
    let t = TripleId::from_str("sg:T1").unwrap();
    assert_eq!(t.try_next().unwrap().to_string(), "sg:T11");
}

#[test]
fn predicate_and_triple_ids_have_their_own_form() {
    assert!(PredicateId::from_str("sg:P1").is_ok());
    let err = PredicateId::from_str("sg:N1").unwrap_err();
    assert_eq!((err.code, err.line, err.column), (ErrorCode::RegexParser, 37, 8));
    assert!(TripleId::from_str("sg:T99").is_ok());
    let err = TripleId::from_str("sg:T").unwrap_err();
    assert_eq!((err.code, err.line, err.column), (ErrorCode::RegexParser, 22, 27));
}

#[test]
fn new_nodes_and_predicates_get_the_first_id() {
    let node = NodeImpl::try_new(Node::Blank).unwrap();
    assert_eq!(node.id(), "sg:N1");
    let node = NodeImpl::new(Node::Schema);
    assert_eq!(node.id(), "sg:N1");
    assert!(PredicateImpl::try_new(Predicate::Literal("knows".to_string())).is_some());
}

#[test]
fn predicates_know_their_kind() {
    let literal = Predicate::Literal("John Doe".to_string());
    assert!(literal.is_literal());
    assert!(!literal.is_uri());
    let uri = Predicate::Uri(Namespace::default());
    assert!(uri.is_uri());
    assert!(!uri.is_literal());
    assert_eq!(uri.get_type(), &Predicate::Uri(Namespace::default()));
}

#[test]
fn new_triples_are_blank_and_forward() {
    let triple = Triple::try_new().unwrap();
    assert_eq!(triple.id().to_string(), "sg:T1");
    assert!(triple.connection().is_forward());
    let other = Triple::new();
    assert!(triple.same_as(&other));
    assert_eq!(triple.id(), other.id());
}
