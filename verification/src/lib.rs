//! Host-side discovery of extension modules and the registry of what they
//! declare.
//!
//! Extension modules are sandboxed binary components. Each one declares, by
//! the interface that it exports, whether it provides data types or nodes,
//! and reports its metadata when asked. This library holds the rules of the
//! host:
//!
//! - [`plugin_manager`] picks the module files out of a directory listing,
//!   owns the engine, classifies a compiled module by its declared exports,
//!   translates what a module reports into the canonical records, keeps
//!   those records in a registry that threads can share, and drives a
//!   discovery pass step by step;
//! - [`wit`] and [`proto`] are the records as modules report them and as
//!   the registry holds them;
//! - [`model`] is the node graph that consumes the registry's entries;
//! - [`types`] and [`nodes`] are the built-in data type and nodes, and the
//!   records in which a module that brings them reports them.
//!
//! Touching the disk and running a module in its sandbox are the caller's
//! part: the library takes what came of them as plain values and says, in
//! the contract of each function, what it makes of every outcome.

pub mod model;
pub mod nodes;
pub mod plugin_manager;
pub mod proto;
pub mod types;
pub mod wit;
