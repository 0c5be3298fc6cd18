//! The domain model that consumes what the registry holds: identifiers,
//! versions and the node graph.

pub mod error;
pub mod graph;
pub mod ident;
pub mod version;
