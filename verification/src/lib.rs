//! A coalescing cache for host name resolution.
//!
//! Many callers may ask for the same host at once. At most one resolution per
//! host runs at a time; every caller that arrives while it runs waits for its
//! completion signal and is then served from the cache. An entry is served only
//! inside its freshness window.

pub mod entry;
pub mod laws;
pub mod model;
pub mod resolver;
pub mod signal;
