use sage::kg::{Edge, Graph, KnowledgeGraph, MultiKnowledgeGraph, Vertex};

#[test]
fn create_vertex() {
    let schema = String::from("Person");
    let label = String::from("James Cameron");
    let vertex: Vertex = Vertex::new(&label, &schema);

    assert_eq!(vertex.label, label);
    assert_eq!(vertex.schema, schema);
}

#[test]
fn vertex_starts_empty_and_takes_payload() {
    let mut avatar = Vertex::new("Avatar", "Movie");
    assert_eq!(avatar.payload.len(), 0);
    assert_eq!(avatar.edges.len(), 0);
    avatar.add_payload("genre", "Science Fiction");
    assert_eq!(avatar.payload.len(), 1);
    avatar.add_payload("trailer", "https://www.youtube.com/watch?v=6ziBFh3V1aM");
    assert_eq!(avatar.payload.len(), 2);
    avatar.add_payload("genre", "Fantasy");
    assert_eq!(avatar.payload.len(), 2);
    assert_eq!(avatar.payload.value_or_key("genre"), "Fantasy");
}

#[test]
fn add_edge_adds_an_edge_once() {
    let mut james = Vertex::new("James Cameron", "Person");
    let avatar = Vertex::new("Avatar", "Movie");
    james.add_edge("director", &avatar);
    assert_eq!(james.edges.len(), 1);
    assert_eq!(james.edges[0].predicate, "director");
    assert_eq!(james.edges[0].dest.label, "Avatar");
    assert_eq!(james.edges[0].src.label, "James Cameron");
    assert_eq!(james.edges[0].src.edges.len(), 0);
    let titanic = Vertex::new("Titanic", "Movie");
    james.add_edge("director", &titanic);
    assert_eq!(james.edges.len(), 2);
}

#[test]
fn add_edge_skips_an_edge_that_is_there() {
    let mut james = Vertex::new("James Cameron", "Person");
    let avatar = Vertex::new("Avatar", "Movie");
    let first = Edge::new(&james, "director", &avatar);
    james.edges.push(first);
    let before = james.edges.len();
    let probe = Vertex::new("James Cameron", "Person");
    let again = Edge::new(&probe, "director", &avatar);
    assert!(james.edges[0].same(&again));
    assert_eq!(james.edges.len(), before);
}

#[test]
fn edge_and_vertex_as_text() {
    let james = Vertex::new("James Cameron", "Person");
    let avatar = Vertex::new("Avatar", "Movie");
    assert_eq!(james.to_string(), "Vertex<James Cameron, Person>");
    let edge = Edge::new(&james, "director", &avatar);
    assert_eq!(edge.to_string(), "Edge<Vertex<James Cameron, Person>, Vertex<Avatar, Movie>>");
}

#[test]
fn graph_adds_vertices_in_order() {
    let mut g = Graph::new("Hollywood", "Stores everything related to Hollywood.");
    g.add_vertex("James Cameron", "Person");
    g.add_vertex("Johnny Depp", "Person");
    assert_eq!(g.vertices.len(), 2);
    assert_eq!(g.vertices[1].label, "Johnny Depp");
    assert_eq!(g.to_string(), "Graph<Hollywood>");
}

#[test]
fn knowledge_graphs_keep_name_and_description() {
    let graph = KnowledgeGraph::new("Hollywood", "The movie industry");
    assert_eq!(graph.name, "Hollywood");
    assert_eq!(graph.description, "The movie industry");
    assert_eq!(graph.to_string(), "KnowledgeGraph<Hollywood>");
    let multi = MultiKnowledgeGraph::new("Hollywood", "The movie industry");
    assert_eq!(multi.graphs.len(), 0);
    assert_eq!(multi.to_string(), "MultiKnowledgeGraph<Hollywood>");
}
