//! The document workflow engine.
//!
//! A [`Post`] owns a text buffer and exactly one [`State`]. Every workflow
//! operation is total: submitting, approving and rejecting each map the
//! current state to a next state, and an operation that does not apply to
//! the current state is a silent no-op rather than an error. Content may
//! grow only while the post is editable (in `Draft`), and is visible to
//! readers only once the post is `Published`.

use vstd::prelude::*;

verus! {

/// The closed set of states that govern a post.
///
/// Every transition operation yields a member of this same set, so the
/// state graph has no undefined edges. `Published` is absorbing: no
/// operation leaves it.
#[derive(Clone, Copy, Debug, PartialEq, Eq, Structural)]
pub enum State {
    Draft,
    InReview,
    Pending,
    Published,
}

/// One of the three transition operations a caller can apply to a post.
#[derive(Clone, Copy, Debug, PartialEq, Eq, Structural)]
pub enum Transition {
    Submit,
    Approve,
    Reject,
}

impl State {
    /// The state after a submit: `Draft` advances to `InReview`,
    /// every other state is unchanged.
    pub open spec fn submit_next(self) -> State {
        match self {
            State::Draft => State::InReview,
            _ => self,
        }
    }

    /// The state after an approval: `InReview` advances to `Pending`,
    /// `Pending` advances to `Published`, every other state is unchanged.
    pub open spec fn approve_next(self) -> State {
        match self {
            State::InReview => State::Pending,
            State::Pending => State::Published,
            _ => self,
        }
    }

    /// The state after a rejection: `InReview` and `Pending` fall back to
    /// `Draft`, every other state is unchanged.
    pub open spec fn reject_next(self) -> State {
        match self {
            State::InReview => State::Draft,
            State::Pending => State::Draft,
            _ => self,
        }
    }

    /// Only a draft may have text appended to it.
    pub open spec fn spec_is_editable(self) -> bool {
        self is Draft
    }

    /// What a reader sees of a buffer `raw` under this state: the full
    /// buffer once published, nothing before that.
    pub open spec fn visible_content(self, raw: Seq<char>) -> Seq<char> {
        if self is Published {
            raw
        } else {
            Seq::empty()
        }
    }

    /// Consume this state and hand back the state a submit leads to.
    pub fn send_for_review(self) -> (next: State)
        ensures
            next == self.submit_next(),
    {
        match self {
            State::Draft => State::InReview,
            _ => self,
        }
    }

    /// Consume this state and hand back the state an approval leads to.
    pub fn approve(self) -> (next: State)
        ensures
            next == self.approve_next(),
    {
        match self {
            State::InReview => State::Pending,
            State::Pending => State::Published,
            _ => self,
        }
    }

    /// Consume this state and hand back the state a rejection leads to.
    pub fn reject(self) -> (next: State)
        ensures
            next == self.reject_next(),
    {
        match self {
            State::InReview => State::Draft,
            State::Pending => State::Draft,
            _ => self,
        }
    }

    /// Whether a post governed by this state accepts new text.
    pub fn is_editable(&self) -> (editable: bool)
        ensures
            editable == self.spec_is_editable(),
    {
        match self {
            State::Draft => true,
            _ => false,
        }
    }

    /// The part of `raw` that a reader may see under this state.
    pub fn content<'a>(&self, raw: &'a str) -> (visible: &'a str)
        ensures
            visible@ == self.visible_content(raw@),
    {
        match self {
            State::Published => raw,
            _ => {
                let empty = "";
                proof {
                    reveal_strlit("");
                    assert(empty@ =~= Seq::<char>::empty());
                }
                empty
            },
        }
    }
}

/// The state reached from `s` by one transition operation.
pub open spec fn apply_transition(s: State, t: Transition) -> State {
    match t {
        Transition::Submit => s.submit_next(),
        Transition::Approve => s.approve_next(),
        Transition::Reject => s.reject_next(),
    }
}

/// The state reached from `s` by a sequence of transition operations,
/// applied left to right.
pub open spec fn apply_transitions(s: State, ts: Seq<Transition>) -> State
    decreases ts.len(),
{
    if ts.len() == 0 {
        s
    } else {
        apply_transitions(apply_transition(s, ts[0]), ts.subrange(1, ts.len() as int))
    }
}

/// Every transition operation on every state lands back in the closed
/// variant set: the state graph has no undefined edges.
pub proof fn lemma_transitions_closed(s: State, t: Transition)
    ensures
        apply_transition(s, t) is Draft || apply_transition(s, t) is InReview
            || apply_transition(s, t) is Pending || apply_transition(s, t) is Published,
{
}

/// Submitting is idempotent: a second submit never moves the state a
/// submit has already reached. In particular, submitting a draft twice
/// ends where submitting it once does.
pub proof fn lemma_submit_idempotent(s: State)
    ensures
        s.submit_next().submit_next() == s.submit_next(),
{
}

/// `Published` is absorbing: no sequence of submits, approvals and
/// rejections leaves it, and a reader keeps seeing the full content.
pub proof fn lemma_published_absorbing(ts: Seq<Transition>, raw: Seq<char>)
    ensures
        apply_transitions(State::Published, ts) == State::Published,
        apply_transitions(State::Published, ts).visible_content(raw) == raw,
    decreases ts.len(),
{
    if ts.len() > 0 {
        lemma_published_absorbing(ts.subrange(1, ts.len() as int), raw);
    }
}

/// A document governed by exactly one state at a time.
///
/// Created as an empty draft; mutated only through the workflow
/// operations, none of which can fail.
pub struct Post {
    content: String,
    state: State,
}

impl Post {
    /// The state currently governing this post.
    pub closed spec fn spec_state(self) -> State {
        self.state
    }

    /// The full text accumulated so far, visible or not.
    pub closed spec fn spec_content(self) -> Seq<char> {
        self.content@
    }

    /// A fresh post: empty content, governed by `Draft`.
    pub fn new() -> (post: Post)
        ensures
            post.spec_state() == State::Draft,
            post.spec_content() == Seq::<char>::empty(),
    {
        Post { content: String::new(), state: State::Draft }
    }

    /// Append `text` to the content if the post is editable; discard it
    /// silently otherwise. The state never changes.
    pub fn add_text(&mut self, text: &str)
        ensures
            final(self).spec_state() == old(self).spec_state(),
            final(self).spec_content() == if old(self).spec_state().spec_is_editable() {
                old(self).spec_content() + text@
            } else {
                old(self).spec_content()
            },
    {
        if self.state.is_editable() {
            self.content.append(text);
        }
    }

    /// Submit the post for review: a draft advances to `InReview`, any
    /// other state stays put. The content never changes.
    pub fn request_review(&mut self)
        ensures
            final(self).spec_state() == old(self).spec_state().submit_next(),
            final(self).spec_content() == old(self).spec_content(),
    {
        self.state = self.state.send_for_review();
    }

    /// Approve the post: `InReview` advances to `Pending`, `Pending` to
    /// `Published`, any other state stays put. The content never changes.
    pub fn approve(&mut self)
        ensures
            final(self).spec_state() == old(self).spec_state().approve_next(),
            final(self).spec_content() == old(self).spec_content(),
    {
        self.state = self.state.approve();
    }

    /// Reject the post: `InReview` and `Pending` fall back to `Draft`,
    /// any other state stays put. The content never changes.
    pub fn reject(&mut self)
        ensures
            final(self).spec_state() == old(self).spec_state().reject_next(),
            final(self).spec_content() == old(self).spec_content(),
    {
        self.state = self.state.reject();
    }

    /// What a reader sees: the full content once the post is published,
    /// the empty string in every other state.
    pub fn content(&self) -> (visible: &str)
        ensures
            visible@ == self.spec_state().visible_content(self.spec_content()),
    {
        self.state.content(self.content.as_str())
    }

    /// The state currently governing this post.
    pub fn state(&self) -> (s: State)
        ensures
            s == self.spec_state(),
    {
        self.state
    }
}

/// Walk one post through the whole happy path: draft some text, submit
/// it, approve it twice, and read the published result.
pub fn demo() {
    let mut post = Post::new();
    post.add_text("hi");
    post.request_review();
    post.approve();
    post.approve();
    assert(post.spec_state() == State::Published);
    let visible = post.content();
    proof {
        assert(visible@ =~= "hi"@);
    }
}

} // verus!
