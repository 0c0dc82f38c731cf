//! A model of a blog post's publication workflow.
//!
//! A [`Post`] starts as a draft, passes through two review stages, and
//! becomes published after two approvals. Its text can only be edited
//! while it is a draft, and is only visible once it is published.
//! Beside it stands a [`Paper`], a piece of writing summarized by
//! quoting it whole.

pub mod laws;
pub mod paper;
pub mod post;

pub use paper::Paper;
pub use post::Op;
pub use post::Post;
pub use post::State;
