//! Summaries of articles and tweets, behind one trait.

use vstd::prelude::*;
use vstd::string::StringExecFns;

verus! {

/// Something that can introduce its author and summarise itself. Each
/// implementor fixes, as spec functions, what the two strings say.
pub trait Summary {
    /// What `summarize_author` returns.
    spec fn spec_author(&self) -> Seq<char>;

    /// What `summarize` returns.
    spec fn spec_summary(&self) -> Seq<char>;

    fn summarize_author(&self) -> (author: String)
        ensures
            author@ == self.spec_author(),
    ;

    fn summarize(&self) -> (summary: String)
        ensures
            summary@ == self.spec_summary(),
    ;
}

#[derive(Debug, Clone, PartialEq)]
pub struct NewsArticle {
    pub author: String,
    pub content: String,
    pub headline: String,
}

impl Summary for NewsArticle {
    open spec fn spec_author(&self) -> Seq<char> {
        self.author@
    }

    open spec fn spec_summary(&self) -> Seq<char> {
        self.headline@ + " by:  "@ + self.author@
    }

    fn summarize_author(&self) -> (author: String)
        ensures
            author@ == self.spec_author(),
    {
        self.author.clone()
    }

    fn summarize(&self) -> (summary: String)
        ensures
            summary@ == self.spec_summary(),
    {
        let mut summary = self.headline.clone();
        summary.append(" by:  ");
        summary.append(self.author.as_str());
        summary
    }
}

#[derive(Debug, Clone, PartialEq)]
pub struct Tweet {
    pub username: String,
    pub content: String,
    pub reply: bool,
    pub retweet: bool,
}

impl Summary for Tweet {
    open spec fn spec_author(&self) -> Seq<char> {
        "@"@ + self.username@
    }

    open spec fn spec_summary(&self) -> Seq<char> {
        "@"@ + self.username@ + ": "@ + self.content@
    }

    fn summarize_author(&self) -> (author: String)
        ensures
            author@ == self.spec_author(),
    {
        let mut author = String::from_str("@");
        author.append(self.username.as_str());
        author
    }

    fn summarize(&self) -> (summary: String)
        ensures
            summary@ == self.spec_summary(),
    {
        let mut summary = self.summarize_author();
        summary.append(": ");
        summary.append(self.content.as_str());
        summary
    }
}

/// Notify about two summarisable items at once; nothing is reported yet.
pub fn notify_two<T: Summary>(_item1: &T, _item2: &T) {
}

/// A pair of two values of one type.
pub struct Pair<T> {
    x: T,
    y: T,
}

impl<T> Pair<T> {
    /// The first element, as seen by specifications.
    pub closed spec fn spec_x(self) -> T {
        self.x
    }

    /// The second element, as seen by specifications.
    pub closed spec fn spec_y(self) -> T {
        self.y
    }

    pub fn new(x: T, y: T) -> (pair: Self)
        ensures
            pair.spec_x() == x,
            pair.spec_y() == y,
    {
        Pair { x, y }
    }
}

} // verus!
