//! Storage core of an in-memory key-value database node.
//!
//! The crate models a hierarchical store (node -> namespaces -> keyspaces ->
//! tables), a key/value engine backed by an associative map with per-key
//! conditional removal, and the snapshot-then-conditional-delete protocol
//! that gives multi-key "strong" actions their all-or-nothing semantics.
//! Every operation and the protocol itself carry contracts that pin down the
//! returned outcome and the final state of the store.

pub mod actions;
pub mod admin;
pub mod coremap;
pub mod data;
pub mod kvengine;
pub mod memstore;
pub mod registry;
pub mod util;
