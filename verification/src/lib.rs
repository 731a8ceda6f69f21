//! Execution core of a competitive-programming judge: a durable task queue
//! with lease-based ownership, an object/event persistence layer with
//! optimistic-concurrency update guards, a worker pool that claims and retires
//! tasks, a single-flight object cache, and a sandbox manager that supervises
//! untrusted processes under time and memory limits.
//!
//! Database, filesystem and process I/O live outside this crate; the crate
//! holds the data model, the query construction, and every decision rule,
//! each with a proved contract.

pub mod builder;
pub mod config;
pub mod cache;
pub mod error;
pub mod files;
pub mod models;
pub mod objects;
pub mod query;
pub mod row;
pub mod sandbox;
pub mod statement;
pub mod store;
pub mod tasks;
pub mod text;
pub mod value;
pub mod worker;
