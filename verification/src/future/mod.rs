//! Support for async integration: the registry of wakers waiting on
//! operations.

pub mod batch;
pub mod operation_future;
pub mod waker;

pub use waker::WakerRegistry;
