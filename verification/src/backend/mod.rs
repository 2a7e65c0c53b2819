//! The decisions of the I/O backends: the io_uring one and the epoll
//! fallback.

pub mod epoll;
pub mod uring;

pub use epoll::EpollBackend;
pub use uring::IoUringBackend;
