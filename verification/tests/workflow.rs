use post_workflow::Paper;
use post_workflow::Post;

#[test]
fn content_hidden_until_published() {
    let mut post = Post::new();
    post.add_text("draft words");
    assert_eq!("", post.content());
    post.request_review();
    assert_eq!("", post.content());
    post.approve();
    assert_eq!("", post.content());
    post.approve();
    assert_eq!("draft words", post.content());
}

#[test]
fn editing_only_in_draft() {
    let mut post = Post::new();
    post.add_text("a");
    post.request_review();
    post.add_text("b");
    post.clear_text();
    post.approve();
    post.add_text("c");
    post.approve();
    assert_eq!("a", post.content());
    post.clear_text();
    post.add_text("d");
    assert_eq!("a", post.content());
}

#[test]
fn reject_resets_review_progress_but_keeps_text() {
    let mut post = Post::new();
    post.add_text("x");
    post.request_review();
    post.approve();
    post.reject();
    assert_eq!("", post.content());
    post.request_review();
    post.approve();
    post.approve();
    assert_eq!("x", post.content());
}

#[test]
fn idle_operations_are_no_ops() {
    let mut post = Post::new();
    post.approve();
    post.reject();
    post.add_text("z");
    post.request_review();
    post.request_review();
    post.approve();
    post.request_review();
    post.approve();
    assert_eq!("z", post.content());
    post.reject();
    post.request_review();
    post.approve();
    assert_eq!("z", post.content());
}

#[test]
fn clearing_an_empty_draft_stays_empty() {
    let mut post = Post::new();
    post.clear_text();
    post.add_text("");
    post.request_review();
    post.approve();
    post.approve();
    assert_eq!("", post.content());
}

#[test]
fn end_to_end_scenario() {
    let mut post = Post::new();

    post.add_text("I ate a salad for lunch today");
    assert_eq!("", post.content());

    post.request_review();
    assert_eq!("", post.content());

    post.reject();
    assert_eq!("", post.content());

    post.clear_text();
    post.add_text("I ate a tomato for lunch today");
    post.request_review();
    post.approve();
    post.approve();
    assert_eq!("I ate a tomato for lunch today", post.content());

    post.clear_text();
    post.add_text("I ate a salad for lunch today");
    assert_eq!("I ate a tomato for lunch today", post.content());
}

#[test]
fn paper_summary_quotes_content() {
    let paper = Paper { content: String::from("In this paper, we propose a novel method to ..") };
    assert_eq!("In this paper, we propose a novel method to ..", paper.summarize());
}
