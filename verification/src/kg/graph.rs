//! Knowledge graphs, alone or many together.

use vstd::prelude::*;
use vstd::string::StringExecFns;
use super::schema::Graph;

verus! {

/// `KnowledgeGraph` is the simplest graph database: one graph of simple
/// relationships. See [`MultiKnowledgeGraph`] for many graphs with
/// entities related across them.
#[derive(Debug)]
pub struct KnowledgeGraph {
    pub name: String,
    pub description: String,
}

impl KnowledgeGraph {
    /// Creates a new knowledge graph.
    pub fn new(name: &str, description: &str) -> (r: KnowledgeGraph)
        ensures
            r.name@ == name@,
            r.description@ == description@,
    {
        KnowledgeGraph { name: name.to_owned(), description: description.to_owned() }
    }

    /// The graph as text: its name between `KnowledgeGraph<` and `>`.
    pub fn to_string(&self) -> (r: String)
        ensures
            r@ == "KnowledgeGraph<"@ + self.name@ + ">"@,
    {
        "KnowledgeGraph<".to_owned().concat(self.name.as_str()).concat(">")
    }
}

/// `MultiKnowledgeGraph` manages many graphs and relates entities in one
/// graph with entities in another.
#[derive(Debug)]
pub struct MultiKnowledgeGraph {
    pub name: String,
    pub description: String,
    pub graphs: Vec<Graph>,
}

impl MultiKnowledgeGraph {
    /// Creates a new knowledge graph of many graphs, with none in it yet.
    pub fn new(name: &str, description: &str) -> (r: MultiKnowledgeGraph)
        ensures
            r.name@ == name@,
            r.description@ == description@,
            r.graphs@.len() == 0,
    {
        MultiKnowledgeGraph {
            name: name.to_owned(),
            description: description.to_owned(),
            graphs: Vec::new(),
        }
    }

    /// The graph as text: its name between `MultiKnowledgeGraph<` and `>`.
    pub fn to_string(&self) -> (r: String)
        ensures
            r@ == "MultiKnowledgeGraph<"@ + self.name@ + ">"@,
    {
        "MultiKnowledgeGraph<".to_owned().concat(self.name.as_str()).concat(">")
    }
}

} // verus!
