//! A small service-state controller: a registry of named services, a
//! transition engine that validates and applies lifecycle transitions
//! (open/close), and read-only query views over the registry.

pub mod engine;
pub mod query;
pub mod registry;
pub mod state;

pub use registry::ServiceError;
pub use registry::ServiceInfo;
pub use registry::ServiceRegistry;
pub use state::State;
pub use state::can_close;
pub use state::can_open;
