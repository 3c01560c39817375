//! HTTP helpers.
pub mod cache;

pub use cache::CacheStatus;
