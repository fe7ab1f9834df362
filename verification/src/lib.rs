//! A query simulation engine for testing code that issues structured queries
//! against a stateful service without running that service.  Serialized query
//! requests are decoded into a closed set of variants, matched against seeded
//! fixture tables, and answered with deterministic, correctly-encoded
//! responses or structured errors.

pub mod codec;
pub mod config;
pub mod keys;
pub mod laws;
pub mod querier;
pub mod table;
pub mod types;
