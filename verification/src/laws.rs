//! The laws of the workflow, proved once and for all over the
//! transition model of [`crate::post`].

use vstd::prelude::*;

use crate::post::Op;
use crate::post::State;
use crate::post::spec_approve;
use crate::post::spec_reject;
use crate::post::spec_request_review;
use crate::post::spec_run;
use crate::post::spec_step;

verus! {

/// Whatever operations run, the reached state is one of the four
/// defined variants: the workflow has no other state.
pub proof fn lemma_state_always_defined(s: State, ops: Seq<Op>)
    ensures
        spec_run(s, ops) is Draft || spec_run(s, ops) is PendingReview || spec_run(
            s,
            ops,
        ) is PendingSecondReview || spec_run(s, ops) is Published,
{
}

/// The no-op transitions: requesting a review anywhere but in a
/// draft, and approving or rejecting a draft or a published post,
/// leave the state unchanged.
pub proof fn lemma_no_op_transitions(s: State)
    ensures
        !(s is Draft) ==> spec_request_review(s) == s,
        s is Draft || s is Published ==> spec_approve(s) == s,
        s is Draft || s is Published ==> spec_reject(s) == s,
{
}

/// How each state is entered, exactly. One step ends published only
/// if the post was published already or the second review stage was
/// approved; it ends in the second review stage only by approving
/// the first or by an idle review request there; it ends in the
/// first review stage only by a review request from a draft or from
/// that stage itself.
pub proof fn lemma_entry_points(s: State, op: Op)
    ensures
        spec_step(s, op) is Published <==> s is Published || (s is PendingSecondReview
            && op is Approve),
        spec_step(s, op) is PendingSecondReview <==> (s is PendingSecondReview
            && op is RequestReview) || (s is PendingReview && op is Approve),
        spec_step(s, op) is PendingReview <==> (s is PendingReview || s is Draft)
            && op is RequestReview,
{
}

/// A run from a draft ends in the first review stage only if a
/// review request was made at a moment the post was a draft.
pub proof fn lemma_pending_review_entered(ops: Seq<Op>)
    ensures
        spec_run(State::Draft, ops) is PendingReview ==> exists|i: int|
            0 <= i < ops.len() && ops[i] is RequestReview && (#[trigger] spec_run(
                State::Draft,
                ops.take(i),
            )) is Draft,
    decreases ops.len(),
{
    if spec_run(State::Draft, ops) is PendingReview {
        let prev = ops.drop_last();
        if spec_run(State::Draft, prev) is PendingReview {
            lemma_pending_review_entered(prev);
            let i = choose|i: int|
                0 <= i < prev.len() && prev[i] is RequestReview && spec_run(
                    State::Draft,
                    prev.take(i),
                ) is Draft;
            assert(prev.take(i) =~= ops.take(i));
            assert(ops[i] is RequestReview);
            assert(spec_run(State::Draft, ops.take(i)) is Draft);
        } else {
            let i = ops.len() - 1;
            assert(ops.take(i) =~= prev);
            assert(ops[i] is RequestReview);
            assert(spec_run(State::Draft, ops.take(i)) is Draft);
        }
    }
}

/// A run from a draft ends in the second review stage only if an
/// approval was given at a moment the post was in the first review
/// stage.
pub proof fn lemma_second_review_entered(ops: Seq<Op>)
    ensures
        spec_run(State::Draft, ops) is PendingSecondReview ==> exists|j: int|
            0 <= j < ops.len() && ops[j] is Approve && (#[trigger] spec_run(
                State::Draft,
                ops.take(j),
            )) is PendingReview,
    decreases ops.len(),
{
    if spec_run(State::Draft, ops) is PendingSecondReview {
        let prev = ops.drop_last();
        if spec_run(State::Draft, prev) is PendingSecondReview {
            lemma_second_review_entered(prev);
            let j = choose|j: int|
                0 <= j < prev.len() && prev[j] is Approve && spec_run(
                    State::Draft,
                    prev.take(j),
                ) is PendingReview;
            assert(prev.take(j) =~= ops.take(j));
            assert(ops[j] is Approve);
            assert(spec_run(State::Draft, ops.take(j)) is PendingReview);
        } else {
            let j = ops.len() - 1;
            assert(ops.take(j) =~= prev);
            assert(ops[j] is Approve);
            assert(spec_run(State::Draft, ops.take(j)) is PendingReview);
        }
    }
}

/// A run from a draft ends published only if an approval was given
/// at a moment the post was in the second review stage.
pub proof fn lemma_published_entered(ops: Seq<Op>)
    ensures
        spec_run(State::Draft, ops) is Published ==> exists|k: int|
            0 <= k < ops.len() && ops[k] is Approve && (#[trigger] spec_run(
                State::Draft,
                ops.take(k),
            )) is PendingSecondReview,
    decreases ops.len(),
{
    if spec_run(State::Draft, ops) is Published {
        let prev = ops.drop_last();
        if spec_run(State::Draft, prev) is Published {
            lemma_published_entered(prev);
            let k = choose|k: int|
                0 <= k < prev.len() && prev[k] is Approve && spec_run(
                    State::Draft,
                    prev.take(k),
                ) is PendingSecondReview;
            assert(prev.take(k) =~= ops.take(k));
            assert(ops[k] is Approve);
            assert(spec_run(State::Draft, ops.take(k)) is PendingSecondReview);
        } else {
            let k = ops.len() - 1;
            assert(ops.take(k) =~= prev);
            assert(ops[k] is Approve);
            assert(spec_run(State::Draft, ops.take(k)) is PendingSecondReview);
        }
    }
}

/// Publication takes the full review sequence. If a run from a draft
/// ends published, then at three moments, in this order, a review
/// request was made while the post was a draft, an approval was
/// given while it was in the first review stage, and an approval was
/// given while it was in the second. A rejection in between resets
/// the post to a draft, so the three moments always come after the
/// last reset.
pub proof fn lemma_published_requires_full_review(ops: Seq<Op>)
    ensures
        spec_run(State::Draft, ops) is Published ==> exists|i: int, j: int, k: int|
            0 <= i < j < k < ops.len() && ops[i] is RequestReview && (#[trigger] spec_run(
                State::Draft,
                ops.take(i),
            )) is Draft && ops[j] is Approve && (#[trigger] spec_run(
                State::Draft,
                ops.take(j),
            )) is PendingReview && ops[k] is Approve && (#[trigger] spec_run(
                State::Draft,
                ops.take(k),
            )) is PendingSecondReview,
{
    if spec_run(State::Draft, ops) is Published {
        lemma_published_entered(ops);
        let k = choose|k: int|
            0 <= k < ops.len() && ops[k] is Approve && spec_run(
                State::Draft,
                ops.take(k),
            ) is PendingSecondReview;
        let to_second = ops.take(k);
        lemma_second_review_entered(to_second);
        let j = choose|j: int|
            0 <= j < to_second.len() && to_second[j] is Approve && spec_run(
                State::Draft,
                to_second.take(j),
            ) is PendingReview;
        assert(to_second.take(j) =~= ops.take(j));
        assert(ops[j] is Approve);
        let to_first = ops.take(j);
        lemma_pending_review_entered(to_first);
        let i = choose|i: int|
            0 <= i < to_first.len() && to_first[i] is RequestReview && spec_run(
                State::Draft,
                to_first.take(i),
            ) is Draft;
        assert(to_first.take(i) =~= ops.take(i));
        assert(ops[i] is RequestReview);
        assert(spec_run(State::Draft, ops.take(i)) is Draft);
        assert(spec_run(State::Draft, ops.take(j)) is PendingReview);
        assert(spec_run(State::Draft, ops.take(k)) is PendingSecondReview);
    }
}

} // verus!
