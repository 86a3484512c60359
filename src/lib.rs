//! A bridge between an embedded component and functions supplied by its
//! host, and a small query engine that turns structured queries into SQL
//! commands and dispatches them through a host-supplied driver.
pub mod host;
pub mod query;
pub mod bridge;
pub mod engine;
pub mod fault_registry;
