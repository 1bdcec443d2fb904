//! Cascading records: one shared base record, refined by per-item overrides and
//! folded, most specific wins, into one composite record per override.
//!
//! - [`lineage`]: nodes that hold one record and an ancestry link set at most once.
//! - [`cascade`]: handles to the leaf of a lineage, which branch without copying.
//! - [`record`]: records, that is JSON objects, and how one is laid over another.
//! - [`merger`]: the fold of a lineage into its composite, and what holds of it.
//! - [`collection`]: a base with its overrides, and the composites they yield.
//! - [`datasource`]: where a collection comes from.
//! - [`error`]: what can go wrong, and how it is reported.

pub mod cascade;
pub mod collection;
pub mod datasource;
pub mod error;
pub mod lineage;
pub mod merger;
pub mod record;
