//! A blog post that moves from draft through review to publication, and
//! shows its text only once published.
use vstd::prelude::*;

verus! {

/// Where a post stands in its review.
#[derive(Clone, Copy, Debug, PartialEq, Eq, Structural)]
pub enum Stage {
    Draft,
    PendingReview,
    Published,
}

impl Stage {
    /// The stage after a review is asked for: a draft goes to review; any
    /// other stage stays as it is.
    pub fn request_review(self) -> (r: Stage)
        ensures
            r == self.request_review_spec(),
    {
        match self {
            Stage::Draft => Stage::PendingReview,
            other => other,
        }
    }

    /// The stage after an approval: a post under review is published; any
    /// other stage stays as it is.
    pub fn approve(self) -> (r: Stage)
        ensures
            r == self.approve_spec(),
    {
        match self {
            Stage::PendingReview => Stage::Published,
            other => other,
        }
    }
}

/// A blog post: its text and the stage of its review.
pub struct Post {
    stage: Stage,
    content: String,
}

impl Post {
    /// The stage of the post's review.
    pub closed spec fn stage(&self) -> Stage {
        self.stage
    }

    /// The text written so far.
    pub closed spec fn text(&self) -> Seq<char> {
        self.content@
    }

    /// An empty draft.
    pub fn new() -> (r: Post)
        ensures
            r.stage() == Stage::Draft,
            r.text() == Seq::<char>::empty(),
    {
        Post { stage: Stage::Draft, content: String::new() }
    }

    /// Appends `text` to the post's text, whatever its stage.
    pub fn add_text(&mut self, text: &str)
        ensures
            final(self).text() == old(self).text() + text@,
            final(self).stage() == old(self).stage(),
    {
        self.content.append(text);
    }

    /// The text readers see: all of it once published, nothing before.
    pub fn content(&self) -> (r: &str)
        ensures
            r@ == (if self.stage() == Stage::Published { self.text() } else { Seq::empty() }),
    {
        match self.stage {
            Stage::Published => self.content.as_str(),
            _ => {
                proof {
                    reveal_strlit("");
                }
                ""
            },
        }
    }

    /// Asks for a review: a draft goes to review.
    pub fn request_review(&mut self)
        ensures
            final(self).stage() == old(self).stage().request_review_spec(),
            final(self).text() == old(self).text(),
    {
        self.stage = self.stage.request_review();
    }

    /// Approves the post: a post under review is published.
    pub fn approve(&mut self)
        ensures
            final(self).stage() == old(self).stage().approve_spec(),
            final(self).text() == old(self).text(),
    {
        self.stage = self.stage.approve();
    }
}

impl Stage {
    /// The stage after a review is asked for.
    pub open spec fn request_review_spec(self) -> Stage {
        if self == Stage::Draft {
            Stage::PendingReview
        } else {
            self
        }
    }

    /// The stage after an approval.
    pub open spec fn approve_spec(self) -> Stage {
        if self == Stage::PendingReview {
            Stage::Published
        } else {
            self
        }
    }
}

} // verus!
