//! A small trade-ingestion gateway core.
//!
//! The crate verifies the decision logic of the gateway: the metric
//! accounting kept by the ingestion handler, the all-or-nothing statement
//! bootstrap, the name-to-statement registry, the marshalling of a trade
//! record into positional query parameters, the shutdown race policy, and
//! the text rendering of a metric snapshot. The surrounding process
//! (sockets, the database driver, signal delivery) performs the actions
//! these modules decide on.

pub mod error;
pub mod handler;
pub mod metrics;
pub mod orchestrator;
pub mod registry;
pub mod render;
pub mod trade;
