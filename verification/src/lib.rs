//! Core data-access layer of a multi-database client.
//!
//! The crate models the pieces of such a client that carry its logic: the
//! universal row value, the SQL mutation builder with its raw-SQL allow-list,
//! the query-text builders of the four backends (PostgreSQL, SQLite, Redis,
//! ClickHouse), the connection pool's state machine with its retry policy,
//! and the decision logic around SSH tunnelling. Network and file I/O is the
//! caller's business: every function here maps plain values to plain values.

pub mod text;
pub mod value;
pub mod sql;
pub mod query;
pub mod models;
pub mod config;
pub mod pool;
pub mod postgres;
pub mod sqlite;
pub mod clickhouse;
pub mod redis;
pub mod tunnel;
