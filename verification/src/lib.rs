//! An embedded, read-only key-value resource store with a boundary-safe
//! lookup operation.
//!
//! The store is an immutable mapping from namespaced string key to byte
//! sequence, fully built before any query runs. The lookup service prepends
//! a fixed namespace prefix to a caller-supplied name, probes the table, and
//! on a hit hands back a freshly allocated copy of the bytes, so the caller
//! may mutate or drop its buffer without touching the table.

pub mod service;
pub mod table;
