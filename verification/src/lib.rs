//! Read-path migration of versioned storage records.
//!
//! A storage engine writes every record behind a small version tag. When a
//! record written under an older schema is read back, the migration engine
//! decodes the bytes as the historical schema they were written under and
//! folds the value upward, one structural conversion step at a time, until it
//! reaches the current schema. A second, independent module flattens
//! configuration objects into a descriptive parameter map.

pub mod codec;
pub mod dumping;
pub mod header;
pub mod migrations;
pub mod serialization;
pub mod state;
