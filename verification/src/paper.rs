//! A paper whose summary is its own content.

use vstd::prelude::*;

verus! {

/// A paper: a piece of writing summarized by quoting it whole.
pub struct Paper {
    pub content: String,
}

impl Paper {
    /// The summary of a paper is its full content, verbatim.
    pub fn summarize(&self) -> (summary: String)
        ensures
            summary@ == self.content@,
    {
        self.content.clone()
    }
}

} // verus!
