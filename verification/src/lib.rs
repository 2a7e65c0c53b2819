//! Safer-ring: the verified core of a memory-safe io_uring wrapper.

pub mod advanced;
pub mod backend;
pub mod buffer;
mod channel;
pub mod compat;
pub mod config;
pub mod error;
pub mod future;
pub mod logging;
pub mod names;
mod opcodes;
pub mod operation;
pub mod ownership;
pub mod parse;
pub mod perf;
pub mod pool;
pub mod registry;
pub mod text;
