//! A blog post that moves from draft through review to publication, and
//! shows its content only once published.

use vstd::prelude::*;
use vstd::string::StringExecFns;

verus! {

/// Where a post stands on its way to publication.
#[derive(Clone, Copy, Debug, PartialEq, Eq, Structural)]
pub enum PostState {
    /// Being written; content hidden.
    Draft,
    /// Waiting for approval; content hidden.
    PendingReview,
    /// Approved; content visible.
    Published,
}

/// A post and the text accumulated in it.
pub struct Post {
    state: PostState,
    content: String,
}

/// The state a review request moves a post to: a draft goes to pending
/// review, anything else stays put.
pub open spec fn after_review_request(s: PostState) -> PostState {
    match s {
        PostState::Draft => PostState::PendingReview,
        other => other,
    }
}

/// The state an approval moves a post to: a pending post is published,
/// anything else stays put.
pub open spec fn after_approval(s: PostState) -> PostState {
    match s {
        PostState::PendingReview => PostState::Published,
        other => other,
    }
}

impl Post {
    /// The post's position in the workflow.
    pub closed spec fn spec_state(&self) -> PostState {
        self.state
    }

    /// Every character added to the post so far.
    pub closed spec fn spec_content(&self) -> Seq<char> {
        self.content@
    }

    /// What a reader sees: the content once published, nothing before.
    pub open spec fn visible_content(&self) -> Seq<char> {
        if self.spec_state() == PostState::Published {
            self.spec_content()
        } else {
            Seq::empty()
        }
    }

    /// A fresh, empty draft.
    pub fn new() -> (p: Post)
        ensures
            p.spec_state() == PostState::Draft,
            p.spec_content() == Seq::<char>::empty(),
    {
        Post { state: PostState::Draft, content: String::new() }
    }

    /// Appends text to the post. The workflow position does not move.
    pub fn add_text(&mut self, text: &str)
        ensures
            final(self).spec_content() == old(self).spec_content() + text@,
            final(self).spec_state() == old(self).spec_state(),
    {
        self.content.append(text);
    }

    /// The text a reader may see now: empty until the post is published.
    pub fn content(&self) -> (r: &str)
        ensures
            r@ == self.visible_content(),
    {
        match self.state {
            PostState::Published => self.content.as_str(),
            _ => {
                proof {
                    reveal_strlit("");
                }
                ""
            },
        }
    }

    /// Asks for a review: a draft becomes pending; the content stays.
    pub fn request_review(&mut self)
        ensures
            final(self).spec_state() == after_review_request(old(self).spec_state()),
            final(self).spec_content() == old(self).spec_content(),
    {
        if let PostState::Draft = self.state {
            self.state = PostState::PendingReview;
        }
    }

    /// Approves the post: a pending post is published; the content stays.
    pub fn approve(&mut self)
        ensures
            final(self).spec_state() == after_approval(old(self).spec_state()),
            final(self).spec_content() == old(self).spec_content(),
    {
        if let PostState::PendingReview = self.state {
            self.state = PostState::Published;
        }
    }
}

} // verus!
