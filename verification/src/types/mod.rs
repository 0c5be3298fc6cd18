//! The built-in data types, and the records in which a module that brings
//! them reports them.

pub mod error;
pub mod listing;
pub mod signal;

pub use listing::list_types;
pub use signal::SignalType;
