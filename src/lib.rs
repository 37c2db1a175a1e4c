//! Inventory and synchronisation logic for a remote hierarchical file store.
//!
//! The library decides; the caller talks to the store. Listing queries,
//! page accumulation, permission auditing, tree-scan assembly and the
//! upload-or-replace decision are all verified here, over plain snapshots of
//! the remote items.

pub mod model;
pub mod audit;
pub mod listing;
pub mod scan;
pub mod upload;
pub mod laws;
