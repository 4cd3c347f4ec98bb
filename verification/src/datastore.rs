//! Where the graph's data comes from and goes to.

pub mod json;
