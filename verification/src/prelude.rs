//! The prelude: the few items that a user of the crawler needs.

pub use crate::builder::context::NoContext;
pub use crate::builder::marker::{Async, NonAsync};
pub use crate::builder::Crawler;
