//! Adapters that expose a synchronous capability through an asynchronous
//! wrapper type, plus the reference bridge that runs a one-shot blocking
//! computation and hands its result out through a single-resolution future.

pub mod async_wrapper;
pub mod blocking_unblocker;

pub use crate::async_wrapper::AsyncWrapper;
pub use crate::async_wrapper::Asyncify;
pub use crate::async_wrapper::UnblockingAsyncWrapper;
pub use crate::async_wrapper::UnblockingAsyncify;
pub use crate::blocking_unblocker::blocking_unblocker;
pub use crate::blocking_unblocker::BlockingFuture;
pub use crate::blocking_unblocker::BlockingUnblocker;
pub use crate::blocking_unblocker::Unblocker;
