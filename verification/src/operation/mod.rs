//! Operations: their kinds, their states and the record that moves between them.

mod machine;
mod sealed;
pub mod states;
pub mod types;

pub use machine::{BufferType, FdType, Operation};
pub use states::{Building, Completed, OperationState, Submitted};
pub use types::OperationType;
pub mod tracker;

pub use tracker::{BufferOwnership, OperationHandle, OperationTracker};
