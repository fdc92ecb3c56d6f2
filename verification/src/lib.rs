//! Rate limiting for byte streams that share one capacity pool.
//!
//! A [`Bucket`](algorithms::bucket::Bucket) divides a fixed capacity among
//! its registered parts, a [`Limiter`] replenishes it on every clock tick
//! and wakes the callers that ran dry, and a [`Limited`] resource turns the
//! limiter's decisions into the steps of one bounded transfer.

pub mod algorithms;
pub mod error;
pub mod limited;
pub mod limiter;
pub mod lock;
pub mod text;
pub mod waiters;

pub use crate::error::Error;
pub use crate::limited::Limited;
pub use crate::limiter::Limiter;
