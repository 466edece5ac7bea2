//! Renders the result set of a SQL query into one of several output
//! encodings: a plain-text aligned table, a structured JSON document,
//! or a sequence of spreadsheet write operations.
//!
//! The core is the type-driven conversion engine: backend-specific
//! column type names are normalized into the canonical [`fields::FieldKind`]
//! taxonomy, and per-format renderers consume that taxonomy to emit
//! correctly-typed, correctly-formatted output cells.

pub mod fields;
pub mod gfm;
pub mod json;
pub mod laws;
pub mod report;
pub mod strutil;
pub mod value;
pub mod xlsx;
