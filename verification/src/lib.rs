//! Deferred, acknowledged delivery of notification tasks.
//!
//! A producer publishes [`task::TelegramMessageTask`] values through a broker;
//! a consumer receives them over a subscription stream, parks them in the
//! [`cache::PendingCache`], and a periodic sweep dispatches the eligible ones,
//! acknowledges them, and removes them from the cache. The transport carries
//! tasks at least once; duplicates are tolerated because the cache insert is a
//! keyed overwrite, and acknowledgments against a stale channel epoch are safe
//! no-ops.

pub mod broker;
pub mod cache;
pub mod cfg;
pub mod delivery;
pub mod errors;
pub mod importance;
pub mod queues;
pub mod sessions;
pub mod storage;
pub mod task;
pub mod transport;
