//! The vertices and edges of a graph, and the graph that holds them.

use vstd::prelude::*;
use vstd::string::StringExecFns;
use crate::text::same_text;
use crate::table::{with_pair, same_pairs, PairTable};

verus! {

/// Edge describes the connection between a vertex and its neighbour.
#[derive(Debug)]
pub struct Edge {
    /// The vertex that the connection starts from.
    pub src: Vertex,
    /// What the source has to do with the destination.
    pub predicate: String,
    /// The vertex that the connection leads to.
    pub dest: Vertex,
}

/// Vertex (or node) stands for one entity in the graph.
#[derive(Debug)]
pub struct Vertex {
    pub label: String,
    pub schema: String,
    pub payload: PairTable,
    pub edges: Vec<Edge>,
}

/// Two vertices are the same: label, schema and payload are, and so are
/// the edges, one by one.
pub open spec fn same_vertex(a: Vertex, b: Vertex) -> bool
    decreases a,
{
    &&& a.label@ == b.label@
    &&& a.schema@ == b.schema@
    &&& same_pairs(a.payload@, b.payload@)
    &&& a.edges@.len() == b.edges@.len()
    &&& forall|i: int|
        0 <= i < a.edges@.len() ==> same_edge(#[trigger] a.edges@[i], b.edges@[i])
}

/// Two edges are the same: source, predicate and destination are.
pub open spec fn same_edge(a: Edge, b: Edge) -> bool
    decreases a,
{
    &&& same_vertex(a.src, b.src)
    &&& a.predicate@ == b.predicate@
    &&& same_vertex(a.dest, b.dest)
}

impl PartialEq for Edge {
    fn eq(&self, other: &Edge) -> (r: bool) {
        self.same(other)
    }
}

impl vstd::std_specs::cmp::PartialEqSpecImpl for Edge {
    open spec fn obeys_eq_spec() -> bool {
        true
    }

    open spec fn eq_spec(&self, other: &Edge) -> bool {
        same_edge(*self, *other)
    }
}

impl PartialEq for Vertex {
    fn eq(&self, other: &Vertex) -> (r: bool) {
        self.same(other)
    }
}

impl vstd::std_specs::cmp::PartialEqSpecImpl for Vertex {
    open spec fn obeys_eq_spec() -> bool {
        true
    }

    open spec fn eq_spec(&self, other: &Vertex) -> bool {
        same_vertex(*self, *other)
    }
}

impl Clone for Edge {
    fn clone(&self) -> (r: Edge)
        ensures
            same_edge(*self, r),
        decreases self,
    {
        Edge { src: self.src.clone(), predicate: self.predicate.clone(), dest: self.dest.clone() }
    }
}

impl Clone for Vertex {
    fn clone(&self) -> (r: Vertex)
        ensures
            same_vertex(*self, r),
        decreases self,
    {
        let mut edges: Vec<Edge> = Vec::with_capacity(self.edges.len());
        let mut i: usize = 0;
        while i < self.edges.len()
            invariant
                i <= self.edges@.len(),
                edges@.len() == i,
                forall|j: int| 0 <= j < i ==> same_edge(#[trigger] self.edges@[j], edges@[j]),
            decreases self.edges@.len() - i,
        {
            proof {
                assert(decreases_to!(self => self.edges));
                assert(decreases_to!(self.edges => self.edges[i as int]));
            }
            edges.push(self.edges[i].clone());
            i += 1;
        }
        Vertex {
            label: self.label.clone(),
            schema: self.schema.clone(),
            payload: self.payload.clone(),
            edges,
        }
    }
}

impl Edge {
    /// Creates the connection `predicate` from a copy of `src` to a copy of
    /// `dest`.
    pub fn new(src: &Vertex, predicate: &str, dest: &Vertex) -> (r: Edge)
        ensures
            same_vertex(*src, r.src),
            r.predicate@ == predicate@,
            same_vertex(*dest, r.dest),
    {
        Edge { src: src.clone(), predicate: predicate.to_owned(), dest: dest.clone() }
    }

    /// Whether two edges are the same.
    pub fn same(&self, other: &Edge) -> (r: bool)
        ensures
            r == same_edge(*self, *other),
        decreases self,
    {
        self.src.same(&other.src) && same_text(self.predicate.as_str(), other.predicate.as_str())
            && self.dest.same(&other.dest)
    }

    /// The edge as text: source and destination between `Edge<` and `>`.
    pub fn to_string(&self) -> (r: String)
        ensures
            r@ == "Edge<"@ + vertex_text(self.src) + ", "@ + vertex_text(self.dest) + ">"@,
    {
        "Edge<".to_owned().concat(self.src.to_string().as_str()).concat(", ").concat(
            self.dest.to_string().as_str(),
        ).concat(">")
    }
}

/// The text of a vertex: label and schema between `Vertex<` and `>`.
pub open spec fn vertex_text(v: Vertex) -> Seq<char> {
    "Vertex<"@ + v.label@ + ", "@ + v.schema@ + ">"@
}

/// `edge` connects a copy of `src` to a copy of `dest` by `predicate`.
pub open spec fn connects(edge: Edge, src: Vertex, predicate: Seq<char>, dest: Vertex) -> bool {
    &&& same_vertex(src, edge.src)
    &&& edge.predicate@ == predicate
    &&& same_vertex(dest, edge.dest)
}

/// Some edge of `edges` is the same as `edge`.
pub open spec fn holds_edge(edges: Seq<Edge>, edge: Edge) -> bool {
    exists|i: int| 0 <= i < edges.len() && same_edge(#[trigger] edges[i], edge)
}

impl Vertex {
    /// Creates a vertex from label and schema, with no payload and no
    /// edges.
    pub fn new(label: &str, schema: &str) -> (r: Vertex)
        ensures
            r.label@ == label@,
            r.schema@ == schema@,
            r.payload@.len() == 0,
            r.edges@.len() == 0,
    {
        Vertex {
            label: label.to_owned(),
            schema: schema.to_owned(),
            payload: PairTable::new(),
            edges: Vec::new(),
        }
    }

    /// Adds a payload to the vertex. If `key` is there already, its value
    /// is overridden by the new `value`.
    pub fn add_payload(&mut self, key: &str, value: &str)
        ensures
            final(self).payload@ == with_pair(old(self).payload@, key@, value@),
            final(self).label == old(self).label,
            final(self).schema == old(self).schema,
            final(self).edges == old(self).edges,
    {
        self.payload.set(key.to_owned(), value.to_owned());
    }

    /// Whether two vertices are the same.
    pub fn same(&self, other: &Vertex) -> (r: bool)
        ensures
            r == same_vertex(*self, *other),
        decreases self,
    {
        if !same_text(self.label.as_str(), other.label.as_str()) {
            return false;
        }
        if !same_text(self.schema.as_str(), other.schema.as_str()) {
            return false;
        }
        if !self.payload.same(&other.payload) {
            return false;
        }
        if self.edges.len() != other.edges.len() {
            return false;
        }
        let mut i: usize = 0;
        while i < self.edges.len()
            invariant
                i <= self.edges@.len(),
                self.edges@.len() == other.edges@.len(),
                forall|j: int| 0 <= j < i ==> same_edge(#[trigger] self.edges@[j], other.edges@[j]),
            decreases self.edges@.len() - i,
        {
            proof {
                assert(decreases_to!(self => self.edges));
                assert(decreases_to!(self.edges => self.edges[i as int]));
            }
            if !self.edges[i].same(&other.edges[i]) {
                return false;
            }
            i += 1;
        }
        true
    }

    /// Adds the connection `predicate` from this vertex to `dest`, unless
    /// the same edge is there already.
    pub fn add_edge(&mut self, predicate: &str, dest: &Vertex)
        ensures
            final(self).label == old(self).label,
            final(self).schema == old(self).schema,
            final(self).payload == old(self).payload,
            exists|edge: Edge| #[trigger]
                connects(edge, *old(self), predicate@, *dest) && final(self).edges@ == if holds_edge(
                    old(self).edges@,
                    edge,
                ) {
                    old(self).edges@
                } else {
                    old(self).edges@.push(edge)
                },
    {
        let edge = Edge::new(self, predicate, dest);
        let mut found = false;
        let mut i: usize = 0;
        while i < self.edges.len()
            invariant
                i <= self.edges@.len(),
                found == exists|j: int| 0 <= j < i && same_edge(#[trigger] self.edges@[j], edge),
            decreases self.edges@.len() - i,
        {
            if self.edges[i].same(&edge) {
                found = true;
            }
            i += 1;
        }
        assert(connects(edge, *old(self), predicate@, *dest));
        if !found {
            self.edges.push(edge);
        }
    }

    /// The vertex as text: label and schema between `Vertex<` and `>`.
    pub fn to_string(&self) -> (r: String)
        ensures
            r@ == vertex_text(*self),
    {
        "Vertex<".to_owned().concat(self.label.as_str()).concat(", ").concat(
            self.schema.as_str(),
        ).concat(">")
    }
}

/// A named graph of vertices.
#[derive(Debug)]
pub struct Graph {
    pub name: String,
    pub description: String,
    pub vertices: Vec<Vertex>,
}

impl Graph {
    /// Creates an empty graph with a name and a description.
    pub fn new(name: &str, description: &str) -> (r: Graph)
        ensures
            r.name@ == name@,
            r.description@ == description@,
            r.vertices@.len() == 0,
    {
        Graph { name: name.to_owned(), description: description.to_owned(), vertices: Vec::new() }
    }

    /// Creates a vertex and puts it at the end of the graph.
    pub fn add_vertex(&mut self, label: &str, schema: &str)
        ensures
            final(self).name == old(self).name,
            final(self).description == old(self).description,
            final(self).vertices@.len() == old(self).vertices@.len() + 1,
            final(self).vertices@.drop_last() == old(self).vertices@,
            final(self).vertices@.last().label@ == label@,
            final(self).vertices@.last().schema@ == schema@,
            final(self).vertices@.last().payload@.len() == 0,
            final(self).vertices@.last().edges@.len() == 0,
    {
        let vertex = Vertex::new(label, schema);
        self.vertices.push(vertex);
        assert(self.vertices@.drop_last() =~= old(self).vertices@);
    }

    /// The graph as text: its name between `Graph<` and `>`.
    pub fn to_string(&self) -> (r: String)
        ensures
            r@ == "Graph<"@ + self.name@ + ">"@,
    {
        "Graph<".to_owned().concat(self.name.as_str()).concat(">")
    }
}

} // verus!
