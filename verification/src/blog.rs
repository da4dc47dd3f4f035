//! A blog post workflow encoded in the types: a draft gathers text, goes
//! out for review, and only an approved post exposes its content.

use vstd::prelude::*;
use vstd::string::StringExecFns;

verus! {

/// A post still being written. Only a draft can take more text.
pub struct DraftPost {
    content: String,
}

impl DraftPost {
    /// The text so far, as seen by specifications.
    pub closed spec fn spec_content(self) -> Seq<char> {
        self.content@
    }

    /// Append text to the draft.
    pub fn add_text(&mut self, text: &str)
        ensures
            final(self).spec_content() == old(self).spec_content() + text@,
    {
        self.content.append(text);
    }

    /// Send the draft out for review, consuming it; the text is carried
    /// over unchanged.
    pub fn request_review(self) -> (pending: PendingReviewPost)
        ensures
            pending.spec_content() == self.spec_content(),
    {
        PendingReviewPost { content: self.content }
    }
}

/// A post waiting for approval. It cannot take text and does not show any.
pub struct PendingReviewPost {
    content: String,
}

impl PendingReviewPost {
    /// The text under review, as seen by specifications.
    pub closed spec fn spec_content(self) -> Seq<char> {
        self.content@
    }

    /// Approve the post, consuming the pending state; the text is carried
    /// over unchanged.
    pub fn approve(self) -> (post: Post)
        ensures
            post.spec_content() == self.spec_content(),
    {
        Post { content: self.content }
    }
}

/// A published post: the only state whose content can be read.
pub struct Post {
    content: String,
}

impl Post {
    /// The published text, as seen by specifications.
    pub closed spec fn spec_content(self) -> Seq<char> {
        self.content@
    }

    /// Every post starts as an empty draft.
    pub fn new() -> (draft: DraftPost)
        ensures
            draft.spec_content() == Seq::<char>::empty(),
    {
        DraftPost { content: String::new() }
    }

    /// The published content.
    pub fn content(&self) -> (text: &str)
        ensures
            text@ == self.spec_content(),
    {
        self.content.as_str()
    }
}

} // verus!
