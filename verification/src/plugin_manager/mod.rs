//! Discovery of extension modules: scanning, loading, classifying,
//! translating and registering.
//!
//! A pass goes from the [`scanner`] through the [`loader`] and the
//! [`translator`] to the store behind the [`registry`]; the [`manager`]
//! drives it, and [`laws`] holds what is proved of every pass.

pub mod error;
pub mod laws;
pub mod loader;
pub mod manager;
pub mod registry;
pub mod scanner;
pub mod store;
pub mod translator;

pub use error::PluginManagerError;
pub use loader::{ComponentKind, Loader, NODES_KIND, TYPES_KIND};
pub use manager::{DiscoveryAction, DiscoveryEvent, DiscoveryStep, PluginManager};
pub use registry::Registry;
pub use store::RegistryInner;
pub use scanner::{scan_directory, Scanner};
pub use translator::{wit_node_to_proto, wit_type_to_proto};
