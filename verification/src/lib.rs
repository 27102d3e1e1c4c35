//! A verified core for a fortune service: a bounded connection pool model,
//! a transactional query-execution run that commits on success and rolls
//! back on every failure without ever leaking its connection, the request
//! handling around it, and the resolution of a connection URL into
//! connection parameters.
//!
//! The library decides; a driver performs the real pool, store and HTTP work
//! and reports each outcome back.

pub mod dburl;
pub mod error;
pub mod executor;
pub mod fortune;
pub mod pool;
