//! A customisable file crawler for local file systems.
//!
//! The library part holds the crawler's settings (`Crawler`), the per-directory
//! configuration that a crawl carries down the tree (`Config`), the decision that
//! is taken for every directory entry, and the bookkeeping of the task authority
//! that drives an asynchronous crawl. Reading directories and running the user's
//! action are left to the caller, who feeds the results back in.

pub mod pattern;
pub mod builder;
pub mod authority;
pub mod laws;
pub mod prelude;
