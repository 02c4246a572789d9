use blog_workflow::workflow::{Post, State};

#[test]
fn transition_table_is_total() {
    let all = [State::Draft, State::InReview, State::Pending, State::Published];
    for s in all {
        for next in [s.send_for_review(), s.approve(), s.reject()] {
            assert!(matches!(
                next,
                State::Draft | State::InReview | State::Pending | State::Published
            ));
        }
    }
}

#[test]
fn submit_advances_only_draft() {
    assert_eq!(State::Draft.send_for_review(), State::InReview);
    assert_eq!(State::InReview.send_for_review(), State::InReview);
    assert_eq!(State::Pending.send_for_review(), State::Pending);
    assert_eq!(State::Published.send_for_review(), State::Published);
}

#[test]
fn approve_advances_review_and_pending() {
    assert_eq!(State::Draft.approve(), State::Draft);
    assert_eq!(State::InReview.approve(), State::Pending);
    assert_eq!(State::Pending.approve(), State::Published);
    assert_eq!(State::Published.approve(), State::Published);
}

#[test]
fn reject_falls_back_to_draft() {
    assert_eq!(State::Draft.reject(), State::Draft);
    assert_eq!(State::InReview.reject(), State::Draft);
    assert_eq!(State::Pending.reject(), State::Draft);
    assert_eq!(State::Published.reject(), State::Published);
}

#[test]
fn only_draft_is_editable() {
    assert!(State::Draft.is_editable());
    assert!(!State::InReview.is_editable());
    assert!(!State::Pending.is_editable());
    assert!(!State::Published.is_editable());
}

#[test]
fn only_published_shows_content() {
    assert_eq!(State::Draft.content("raw"), "");
    assert_eq!(State::InReview.content("raw"), "");
    assert_eq!(State::Pending.content("raw"), "");
    assert_eq!(State::Published.content("raw"), "raw");
}

#[test]
fn submit_twice_is_submit_once() {
    let mut once = Post::new();
    once.request_review();
    let mut twice = Post::new();
    twice.request_review();
    twice.request_review();
    assert_eq!(once.state(), twice.state());
    assert_eq!(once.state(), State::InReview);
}

#[test]
fn published_is_absorbing() {
    let mut post = Post::new();
    post.add_text("body");
    post.request_review();
    post.approve();
    post.approve();
    assert_eq!(post.state(), State::Published);
    post.request_review();
    assert_eq!(post.state(), State::Published);
    post.reject();
    assert_eq!(post.state(), State::Published);
    post.approve();
    assert_eq!(post.state(), State::Published);
    assert_eq!(post.content(), "body");
}

#[test]
fn edits_outside_draft_are_discarded() {
    let mut post = Post::new();
    post.add_text("hi");
    post.request_review();
    post.add_text("in review");
    assert_eq!(post.state(), State::InReview);
    post.approve();
    post.add_text("pending");
    assert_eq!(post.state(), State::Pending);
    post.approve();
    post.add_text("published");
    assert_eq!(post.state(), State::Published);
    assert_eq!(post.content(), "hi");
}

#[test]
fn read_is_gated_until_published() {
    let mut post = Post::new();
    post.add_text("secret");
    assert_eq!(post.content(), "");
    post.request_review();
    assert_eq!(post.content(), "");
    post.approve();
    assert_eq!(post.content(), "");
    post.approve();
    assert_eq!(post.content(), "secret");
}

#[test]
fn scenario_draft_read_is_empty() {
    let mut post = Post::new();
    post.add_text("hi");
    assert_eq!(post.content(), "");
}

#[test]
fn scenario_full_approval_shows_text() {
    let mut post = Post::new();
    post.add_text("hi");
    post.request_review();
    post.approve();
    post.approve();
    assert_eq!(post.content(), "hi");
}

#[test]
fn scenario_reject_edit_resubmit() {
    let mut post = Post::new();
    post.add_text("hi");
    post.request_review();
    post.reject();
    post.add_text(" there");
    post.request_review();
    post.approve();
    post.approve();
    assert_eq!(post.content(), "hi there");
}

#[test]
fn scenario_double_submit_no_double_advance() {
    let mut post = Post::new();
    post.request_review();
    post.request_review();
    assert_eq!(post.state(), State::InReview);
}

#[test]
fn workflow_demo_runs() {
    blog_workflow::workflow::demo();
}
