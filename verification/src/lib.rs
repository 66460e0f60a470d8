//! Builds a relational catalog from SQL data-definition statements.
//!
//! SQL texts are parsed by an outside SQL grammar into plain statement
//! nodes; the verified core folds those nodes into an accumulator of
//! schemas, tables, columns, keys and indexes, merges independently
//! built catalogs, and flattens the result into an immutable catalog.

pub mod builder;
pub mod catalog;
pub mod dialect;
pub mod error;
pub mod extract;
pub mod laws;
pub mod model;
pub mod parser;
pub mod semantics;
pub mod stmt;
pub mod text;
