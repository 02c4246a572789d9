//! A collection of posts keyed by identifier.
//!
//! Each [`Post`] carries a randomly drawn identifier and a publication
//! state of its own, simpler than the full workflow: a post is sent for
//! review and then approved, unconditionally. A [`Blog`] looks posts up
//! by identifier — always the first match — and reading a post reports
//! an error unless it exists and is published.

use rand::Rng;
use vstd::prelude::*;

verus! {

/// The publication state of a blog post.
#[derive(Clone, Copy, Debug, PartialEq, Eq, Structural)]
pub enum BlogState {
    Draft,
    Review,
    Published,
}

/// Why reading a post failed.
#[derive(Clone, Copy, Debug, PartialEq, Eq, Structural)]
pub enum BlogError {
    /// No post in the blog carries the requested identifier.
    NotFound,
    /// The post exists but is not published yet.
    NotPublished,
}

/// A post with a random identifier, a title, a content buffer and a
/// publication state.
#[derive(Debug)]
pub struct Post {
    pub id: String,
    pub title: String,
    pub content: String,
    pub state: BlogState,
}

/// Relies on rand::Rng::sample_iter over rand::distributions::Standard:
/// each sample is one char, so taking seven and collecting them yields a
/// String of exactly seven chars. Which chars come back is up to the
/// generator; nothing is claimed of them.
#[verifier::external_body]
fn get_random_string() -> (r: String)
    ensures
        r@.len() == 7,
{
    rand::thread_rng()
        .sample_iter::<char, _>(rand::distributions::Standard)
        .take(7)
        .collect()
}

impl Post {
    /// A fresh draft: empty title and content, and a random identifier
    /// of seven characters.
    pub fn new() -> (post: Post)
        ensures
            post.id@.len() == 7,
            post.title@ == Seq::<char>::empty(),
            post.content@ == Seq::<char>::empty(),
            post.state == BlogState::Draft,
    {
        Post {
            id: get_random_string(),
            title: String::new(),
            content: String::new(),
            state: BlogState::Draft,
        }
    }

    /// Move this post into review, whatever state it was in.
    pub fn send_for_review(&mut self)
        ensures
            final(self).state == BlogState::Review,
            final(self).id == old(self).id,
            final(self).title == old(self).title,
            final(self).content == old(self).content,
    {
        self.state = BlogState::Review;
    }

    /// Publish this post, whatever state it was in.
    pub fn approve(&mut self)
        ensures
            final(self).state == BlogState::Published,
            final(self).id == old(self).id,
            final(self).title == old(self).title,
            final(self).content == old(self).content,
    {
        self.state = BlogState::Published;
    }

    /// The post's content, if it is published; an error otherwise.
    pub fn print(&self) -> (r: Result<&str, BlogError>)
        ensures
            self.state is Published ==> (r matches Ok(content) && content@ == self.content@),
            self.state !is Published ==> r == Result::<&str, BlogError>::Err(BlogError::NotPublished),
    {
        match self.state {
            BlogState::Published => Ok(self.content.as_str()),
            _ => Err(BlogError::NotPublished),
        }
    }
}

/// `p` with its state replaced by `s` and every other field kept.
pub open spec fn with_state(p: Post, s: BlogState) -> Post {
    Post { state: s, ..p }
}

/// Whether some post in `posts` carries the identifier `id`.
pub open spec fn has_post(posts: Seq<Post>, id: Seq<char>) -> bool {
    exists|i: int| 0 <= i < posts.len() && posts[i].id@ == id
}

/// The least index at or after `k` whose post carries `id`, or
/// `posts.len()` if there is none.
pub open spec fn first_post_from(posts: Seq<Post>, id: Seq<char>, k: int) -> int
    decreases posts.len() - k,
{
    if k < 0 || k >= posts.len() {
        posts.len() as int
    } else if posts[k].id@ == id {
        k
    } else {
        first_post_from(posts, id, k + 1)
    }
}

/// The least index whose post carries `id`, or `posts.len()` if there
/// is none.
pub open spec fn first_post(posts: Seq<Post>, id: Seq<char>) -> int {
    first_post_from(posts, id, 0)
}

proof fn lemma_first_post_from_found(posts: Seq<Post>, id: Seq<char>, k: int, i: int)
    requires
        0 <= k <= i < posts.len(),
        posts[i].id@ == id,
        forall|j: int| k <= j < i ==> posts[j].id@ != id,
    ensures
        first_post_from(posts, id, k) == i,
    decreases i - k,
{
    if k < i {
        lemma_first_post_from_found(posts, id, k + 1, i);
    }
}

/// A collection of posts, looked up by identifier.
#[derive(Debug)]
pub struct Blog {
    pub posts: Vec<Post>,
}

impl Blog {
    /// Append a fresh draft post; the existing posts keep their places.
    pub fn add(&mut self)
        ensures
            final(self).posts@.len() == old(self).posts@.len() + 1,
            final(self).posts@.subrange(0, old(self).posts@.len() as int) == old(self).posts@,
            final(self).posts@.last().state == BlogState::Draft,
            final(self).posts@.last().title@ == Seq::<char>::empty(),
            final(self).posts@.last().content@ == Seq::<char>::empty(),
            final(self).posts@.last().id@.len() == 7,
    {
        self.posts.push(Post::new());
        proof {
            assert(self.posts@.subrange(0, old(self).posts@.len() as int) =~= old(self).posts@);
        }
    }

    /// Send the first post carrying `id` for review; every other post is
    /// untouched.
    pub fn request_review(&mut self, id: &str)
        requires
            has_post(old(self).posts@, id@),
        ensures
            final(self).posts@ == old(self).posts@.update(
                first_post(old(self).posts@, id@),
                with_state(
                    old(self).posts@[first_post(old(self).posts@, id@)],
                    BlogState::Review,
                ),
            ),
    {
        let needle = String::from_str(id);
        let ghost orig = self.posts@;
        let n = self.posts.len();
        let mut i: usize = 0;
        while i < n
            invariant
                self.posts@ == orig,
                orig == old(self).posts@,
                n == orig.len(),
                i <= n,
                needle@ == id@,
                has_post(orig, id@),
                forall|j: int| 0 <= j < i ==> orig[j].id@ != id@,
            decreases n - i,
        {
            if self.posts[i].id == needle {
                proof {
                    lemma_first_post_from_found(orig, id@, 0, i as int);
                }
                let post = &mut self.posts[i];
                post.send_for_review();
                proof {
                    assert(self.posts@[i as int] == with_state(orig[i as int], BlogState::Review));
                }
                return;
            }
            i = i + 1;
        }
        proof {
            let w = choose|w: int| 0 <= w < orig.len() && orig[w].id@ == id@;
            assert(false);
        }
    }

    /// Publish the first post carrying `id`; every other post is
    /// untouched.
    pub fn request_approval(&mut self, id: &str)
        requires
            has_post(old(self).posts@, id@),
        ensures
            final(self).posts@ == old(self).posts@.update(
                first_post(old(self).posts@, id@),
                with_state(
                    old(self).posts@[first_post(old(self).posts@, id@)],
                    BlogState::Published,
                ),
            ),
    {
        let needle = String::from_str(id);
        let ghost orig = self.posts@;
        let n = self.posts.len();
        let mut i: usize = 0;
        while i < n
            invariant
                self.posts@ == orig,
                orig == old(self).posts@,
                n == orig.len(),
                i <= n,
                needle@ == id@,
                has_post(orig, id@),
                forall|j: int| 0 <= j < i ==> orig[j].id@ != id@,
            decreases n - i,
        {
            if self.posts[i].id == needle {
                proof {
                    lemma_first_post_from_found(orig, id@, 0, i as int);
                }
                let post = &mut self.posts[i];
                post.approve();
                proof {
                    assert(self.posts@[i as int] == with_state(orig[i as int], BlogState::Published));
                }
                return;
            }
            i = i + 1;
        }
        proof {
            let w = choose|w: int| 0 <= w < orig.len() && orig[w].id@ == id@;
            assert(false);
        }
    }

    /// The content of the first post carrying `id`: an error if no post
    /// carries it or the post is not published, the content otherwise.
    pub fn print(&self, id: &str) -> (r: Result<&str, BlogError>)
        ensures
            !has_post(self.posts@, id@) ==> r == Result::<&str, BlogError>::Err(
                BlogError::NotFound,
            ),
            has_post(self.posts@, id@) && self.posts@[first_post(self.posts@, id@)].state
                is Published ==> (r matches Ok(content) && content@ == self.posts@[first_post(
                self.posts@,
                id@,
            )].content@),
            has_post(self.posts@, id@) && self.posts@[first_post(self.posts@, id@)].state
                !is Published ==> r == Result::<&str, BlogError>::Err(BlogError::NotPublished),
    {
        let needle = String::from_str(id);
        let n = self.posts.len();
        let mut i: usize = 0;
        while i < n
            invariant
                n == self.posts@.len(),
                i <= n,
                needle@ == id@,
                forall|j: int| 0 <= j < i ==> self.posts@[j].id@ != id@,
            decreases n - i,
        {
            if self.posts[i].id == needle {
                proof {
                    lemma_first_post_from_found(self.posts@, id@, 0, i as int);
                }
                return self.posts[i].print();
            }
            i = i + 1;
        }
        proof {
            assert(!has_post(self.posts@, id@));
        }
        Err(BlogError::NotFound)
    }
}

} // verus!
