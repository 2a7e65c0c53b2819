//! The states an operation moves through.

use super::sealed::Sealed;
use vstd::prelude::*;

verus! {

/// A state of an operation; only the three states below are states.
pub trait OperationState: Sealed {}

/// The operation is being configured and has not been handed to the kernel.
#[derive(Debug, Clone, Copy)]
pub struct Building;

/// The operation has been handed to the kernel under an identifier.
#[derive(Debug, Clone, Copy)]
pub struct Submitted {
    id: u64,
}

/// The operation has finished with a result.
#[derive(Debug)]
pub struct Completed<T> {
    result: T,
}

impl Submitted {
    /// The identifier the operation was submitted under.
    pub closed spec fn id_spec(&self) -> u64 {
        self.id
    }

    /// The state of an operation submitted under `id`.
    pub(crate) fn with_id(id: u64) -> (s: Self)
        ensures
            s.id_spec() == id,
    {
        Submitted { id }
    }

    /// The identifier the operation was submitted under.
    pub fn id(&self) -> (r: u64)
        ensures
            r == self.id_spec(),
    {
        self.id
    }
}

impl<T> Completed<T> {
    /// What the operation produced.
    pub closed spec fn result_spec(&self) -> &T {
        &self.result
    }

    /// The state of an operation that produced `result`.
    pub(crate) fn with_result(result: T) -> (s: Self)
        ensures
            *s.result_spec() == result,
    {
        Completed { result }
    }

    /// What the operation produced.
    pub fn result(&self) -> (r: &T)
        ensures
            *r == *self.result_spec(),
    {
        &self.result
    }

    /// What the operation produced, taken out of the state.
    pub fn into_result(self) -> (r: T)
        ensures
            r == *self.result_spec(),
    {
        self.result
    }
}

impl OperationState for Building {}

impl OperationState for Submitted {}

impl<T> OperationState for Completed<T> {}

} // verus!
