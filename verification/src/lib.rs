//! Verified core of a schema-driven sheet exporter.
//!
//! The library resolves human-readable output field names from a versioned
//! schema, serializes rows of typed cell values into ordered records,
//! renders rich-text event streams as markup, and plans the per-language
//! export task list. All I/O (reading the binary data source, loading
//! schema files, writing output files) lives outside the library; callers
//! hand in plain values and receive plain values back.
#![verifier::loop_isolation(false)]

use vstd::prelude::*;

pub mod numfmt;
pub mod text;
pub mod schema;
pub mod formatter;
pub mod serializer;
pub mod output;
pub mod scheduler;

verus! {

} // verus!
