//! Multi-shot operation configuration.

use vstd::prelude::*;

verus! {

/// Multi-shot operation configuration.
///
/// Multi-shot operations allow a single submission to generate multiple
/// completion events, reducing submission overhead for operations like
/// `accept()` that can be repeated.
#[derive(Debug, Clone, Copy, PartialEq, Eq, Structural)]
pub struct MultiShotConfig {
    /// Maximum number of completions to generate
    pub max_completions: Option<u32>,
    /// Whether to continue on errors
    pub continue_on_error: bool,
    /// Buffer group to use for multi-shot reads
    pub buffer_group_id: Option<u16>,
}

impl Default for MultiShotConfig {
    fn default() -> (r: Self)
        ensures
            r == (MultiShotConfig { max_completions: None, continue_on_error: false, buffer_group_id: None }),
    {
        MultiShotConfig { max_completions: None, continue_on_error: false, buffer_group_id: None }
    }
}

impl MultiShotConfig {
    /// Create a new multi-shot configuration: no completion limit, stop on
    /// errors, no buffer group.
    pub fn new() -> (r: Self)
        ensures
            r == (MultiShotConfig { max_completions: None, continue_on_error: false, buffer_group_id: None }),
    {
        Self::default()
    }

    /// Set the maximum number of completions.
    pub fn with_max_completions(self, max: u32) -> (r: Self)
        ensures
            r == (MultiShotConfig { max_completions: Some(max), ..self }),
    {
        let mut c = self;
        c.max_completions = Some(max);
        c
    }

    /// Enable continuing on errors.
    pub fn with_continue_on_error(self) -> (r: Self)
        ensures
            r == (MultiShotConfig { continue_on_error: true, ..self }),
    {
        let mut c = self;
        c.continue_on_error = true;
        c
    }

    /// Set the buffer group ID for multi-shot reads.
    pub fn with_buffer_group(self, group_id: u16) -> (r: Self)
        ensures
            r == (MultiShotConfig { buffer_group_id: Some(group_id), ..self }),
    {
        let mut c = self;
        c.buffer_group_id = Some(group_id);
        c
    }
}

} // verus!
