//! The stored shape of the task table.
use vstd::prelude::*;

verus! {

/// Marker for the two-value database enum type that stores a task's status.
pub struct StatusEnum;

/// Longest title that the title column holds, in characters.
pub const TITLE_MAX_CHARS: usize = 255;

} // verus!
