//! Supervisor for an external vector-search server and the verified core of
//! the embedding store built on it: collection routing per tenant, metadata
//! normalization, similarity ranking with fan-out merging, the process
//! supervisor and self-healing recovery state machines, and an in-memory
//! model of a collection's upsert/get/delete semantics.
//!
//! All network, process and file-system work is performed by an unverified
//! driver; this crate holds every decision that driver makes, as verified
//! functions from plain values to plain values.

pub mod assoc;
pub mod collection;
pub mod config;
pub mod locator;
pub mod errors;
pub mod fanout;
pub mod graphviz;
pub mod meta;
pub mod ranking;
pub mod recovery;
pub mod registry;
pub mod router;
pub mod similarity;
pub mod store;
pub mod supervisor;
pub mod text;
