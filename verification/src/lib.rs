//! Two concurrency building blocks: a memoizing cache that computes the
//! value of each key at most once, and a fixed-size worker pool.

pub mod cache;
pub mod memo;
pub mod sync;
pub mod thread_pool;
