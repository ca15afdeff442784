//! Query-processing core of a small SQL engine.
//!
//! The crate covers the pipeline from a parsed SQL statement to an
//! executable plan: a closed lattice of SQL types, name and definition
//! entities, a DDL planner that lowers schema changes into ordered
//! catalog-mutation programs, and a query analyzer that validates DML
//! statements against a catalog and lowers them into untyped
//! expression trees.

pub mod analyzer;
pub mod ast;
pub mod operations;
pub mod planner;
pub mod queries;
pub mod schema_change;
pub mod catalog;
pub mod definition;
pub mod text;
pub mod tree;
pub mod types;
