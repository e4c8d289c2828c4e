//! Import job orchestration for a model registry: job descriptors, the job
//! status state machine, the concurrent job table's logic, and the bridge that
//! turns a completed import into a registration request.

pub mod config;
pub mod inference;
pub mod lifecycle;
pub mod locator;
pub mod migration;
pub mod records;
pub mod registry;
pub mod status;
pub mod store;
pub mod worker;
