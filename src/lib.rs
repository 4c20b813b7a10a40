//! Distributed hash-throughput benchmark: the search-space partitioning, the
//! time-bounded search engine, the worker's request handling and the
//! coordinator's validation and aggregation.

pub mod challenge;
pub mod coordinator;
pub mod error;
pub mod partition;
pub mod search;
pub mod service;
