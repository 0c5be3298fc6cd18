//! The built-in nodes, and the records in which a module that brings them
//! reports them.

pub mod end;
pub mod error;
pub mod listing;
pub mod start;

pub use end::EndNode;
pub use listing::list_nodes;
pub use start::StartNode;
