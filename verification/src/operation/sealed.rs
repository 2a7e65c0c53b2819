//! The seal on operation states: only the states of this module implement it.

use super::states::{Building, Completed, Submitted};
use vstd::prelude::*;

verus! {

/// Implemented by the operation states alone.
pub trait Sealed {}

impl Sealed for Building {}

impl Sealed for Submitted {}

impl<T> Sealed for Completed<T> {}

} // verus!
