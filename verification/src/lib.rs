//! Admission control for a node's finite capacity.
//!
//! A [`ResourceManager`] counts how much memory, how many CPU shares and how
//! many GPU units are still free; a [`SharedResourceManager`] is such a pool
//! behind a lock. [`ResourceManager::try_allocate`] takes a request out of a
//! shared pool, or says which resource was lacking first, and hands back a
//! [`ResourceAllocation`] that returns what it holds when it is dropped.

pub mod amounts;
pub mod error;
pub mod ledger;
mod lock;
pub mod manager;
pub mod probe;

pub use amounts::{first_shortfall, Amounts, Resource, ResourceRequest};
pub use error::ResourceError;
pub use manager::{ResourceAllocation, ResourceManager, SharedResourceManager};
pub use probe::{get_configured_resources, Config};
