//! Prepared statements over a blocking PostgreSQL client: naming and checking a statement before
//! it is prepared, building the parallel parameter arrays of its execution, choosing between the
//! unnamed and the named call, following the exchange of responses, and the cache that decides
//! which statements are kept on the server.

pub mod cache;
pub mod error;
pub mod exchange;
pub mod name;
pub mod result;
pub mod stmt;
pub mod types;
