//! The publication workflow of a single post.
//!
//! A [`Post`] owns a text buffer and a lifecycle [`State`]. Text may be
//! appended or cleared only while the post is a draft; other states
//! silently ignore edits. The buffer becomes visible through
//! [`Post::content`] only once the post is published, which takes a
//! review request followed by two approvals. A rejection from either
//! review stage returns the post to a draft, keeping the buffer.

use vstd::prelude::*;
use vstd::string::StringExecFns;

verus! {

/// The lifecycle of a post. A post is always in exactly one of these
/// four states; there is no other state and no "in between".
#[derive(Clone, Copy, PartialEq, Eq, Structural, Debug)]
pub enum State {
    Draft,
    PendingReview,
    PendingSecondReview,
    Published,
}

/// One transition operation on a post, for reasoning about sequences
/// of calls. Editing operations are absent because they never change
/// the state.
#[derive(Clone, Copy, PartialEq, Eq, Structural, Debug)]
pub enum Op {
    RequestReview,
    Approve,
    Reject,
}

/// The state after a review request: a draft moves under review;
/// every other state is unchanged.
pub open spec fn spec_request_review(s: State) -> State {
    match s {
        State::Draft => State::PendingReview,
        _ => s,
    }
}

/// The state after an approval: each review stage advances, the
/// second one to published; a draft and a published post are
/// unchanged.
pub open spec fn spec_approve(s: State) -> State {
    match s {
        State::PendingReview => State::PendingSecondReview,
        State::PendingSecondReview => State::Published,
        _ => s,
    }
}

/// The state after a rejection: either review stage falls back to a
/// draft; a draft and a published post are unchanged.
pub open spec fn spec_reject(s: State) -> State {
    match s {
        State::PendingReview => State::Draft,
        State::PendingSecondReview => State::Draft,
        _ => s,
    }
}

/// The state after one operation.
pub open spec fn spec_step(s: State, op: Op) -> State {
    match op {
        Op::RequestReview => spec_request_review(s),
        Op::Approve => spec_approve(s),
        Op::Reject => spec_reject(s),
    }
}

/// The state after a whole sequence of operations, applied in order.
pub open spec fn spec_run(s: State, ops: Seq<Op>) -> State
    decreases ops.len(),
{
    if ops.len() == 0 {
        s
    } else {
        spec_step(spec_run(s, ops.drop_last()), ops.last())
    }
}

impl State {
    /// Whether the text buffer may be edited in this state: only a
    /// draft permits edits.
    pub fn can_edit_text(&self) -> (permitted: bool)
        ensures
            permitted == (self is Draft),
    {
        match self {
            State::Draft => true,
            _ => false,
        }
    }

    /// The state reached by requesting a review.
    pub fn request_review(self) -> (next: State)
        ensures
            next == spec_request_review(self),
    {
        match self {
            State::Draft => State::PendingReview,
            _ => self,
        }
    }

    /// The state reached by approving.
    pub fn approve(self) -> (next: State)
        ensures
            next == spec_approve(self),
    {
        match self {
            State::PendingReview => State::PendingSecondReview,
            State::PendingSecondReview => State::Published,
            _ => self,
        }
    }

    /// The state reached by rejecting.
    pub fn reject(self) -> (next: State)
        ensures
            next == spec_reject(self),
    {
        match self {
            State::PendingReview => State::Draft,
            State::PendingSecondReview => State::Draft,
            _ => self,
        }
    }
}

/// A blog post: a text buffer together with its lifecycle state.
pub struct Post {
    state: State,
    content: String,
}

impl Post {
    /// The current lifecycle state.
    pub closed spec fn spec_state(&self) -> State {
        self.state
    }

    /// The raw text buffer, whether or not it is visible.
    pub closed spec fn spec_buffer(&self) -> Seq<char> {
        self.content@
    }

    /// The text a reader sees: the buffer once published, and nothing
    /// in any other state.
    pub open spec fn spec_content(&self) -> Seq<char> {
        if self.spec_state() is Published {
            self.spec_buffer()
        } else {
            Seq::<char>::empty()
        }
    }

    /// A fresh post: a draft with an empty buffer.
    pub fn new() -> (post: Post)
        ensures
            post.spec_state() is Draft,
            post.spec_buffer() == Seq::<char>::empty(),
    {
        Post { state: State::Draft, content: String::new() }
    }

    /// Appends `text` to the buffer if the post is a draft; in every
    /// other state the call changes nothing.
    pub fn add_text(&mut self, text: &str)
        ensures
            final(self).spec_state() == old(self).spec_state(),
            old(self).spec_state() is Draft ==> final(self).spec_buffer() == old(
                self,
            ).spec_buffer() + text@,
            !(old(self).spec_state() is Draft) ==> final(self).spec_buffer() == old(
                self,
            ).spec_buffer(),
    {
        if self.state.can_edit_text() {
            self.content.append(text);
        }
    }

    /// Empties the buffer if the post is a draft; in every other
    /// state the call changes nothing.
    pub fn clear_text(&mut self)
        ensures
            final(self).spec_state() == old(self).spec_state(),
            old(self).spec_state() is Draft ==> final(self).spec_buffer() == Seq::<char>::empty(),
            !(old(self).spec_state() is Draft) ==> final(self).spec_buffer() == old(
                self,
            ).spec_buffer(),
    {
        if self.state.can_edit_text() {
            self.content = String::new();
        }
    }

    /// The visible content: the whole buffer once published, and the
    /// empty string in every other state.
    pub fn content(&self) -> (text: &str)
        ensures
            text@ == self.spec_content(),
    {
        match self.state {
            State::Published => self.content.as_str(),
            _ => {
                let hidden = "";
                proof {
                    reveal_strlit("");
                    assert(hidden@ =~= Seq::<char>::empty());
                }
                hidden
            },
        }
    }

    /// Requests a review, per [`spec_request_review`]; the buffer is
    /// untouched.
    pub fn request_review(&mut self)
        ensures
            final(self).spec_state() == spec_request_review(old(self).spec_state()),
            final(self).spec_buffer() == old(self).spec_buffer(),
    {
        self.state = self.state.request_review();
    }

    /// Approves the current review stage, per [`spec_approve`]; the
    /// buffer is untouched.
    pub fn approve(&mut self)
        ensures
            final(self).spec_state() == spec_approve(old(self).spec_state()),
            final(self).spec_buffer() == old(self).spec_buffer(),
    {
        self.state = self.state.approve();
    }

    /// Rejects the current review stage, per [`spec_reject`]; the
    /// buffer is untouched.
    pub fn reject(&mut self)
        ensures
            final(self).spec_state() == spec_reject(old(self).spec_state()),
            final(self).spec_buffer() == old(self).spec_buffer(),
    {
        self.state = self.state.reject();
    }
}

} // verus!
