//! A one-method summary trait with a default summary line built from the
//! author, and a tweet type implementing it.

use vstd::prelude::*;
use vstd::string::StringExecFns;

verus! {

/// The summary line built around an author string:
/// `(Read more from <author>...)`.
pub open spec fn summary_line_view(author: Seq<char>) -> Seq<char> {
    "(Read more from "@ + author + "...)"@
}

/// Types that can describe their author and, from that, a summary line.
pub trait Summary {
    /// The author string that `summarize_author` returns, as a sequence of
    /// characters.
    spec fn author_view(&self) -> Seq<char>;

    /// Returns the author string of this value.
    fn summarize_author(&self) -> (r: String)
        ensures
            r@ == self.author_view(),
        ;

    /// Returns the summary line, built around the author string by default.
    fn summarize(&self) -> (r: String)
        ensures
            r@ == summary_line_view(self.author_view()),
    {
        let author = self.summarize_author();
        let mut out = String::from_str("(Read more from ");
        out.append(author.as_str());
        out.append("...)");
        out
    }
}

/// A tweet: its author's username, its text, and whether it is a reply or a
/// retweet.
pub struct Tweet {
    pub username: String,
    pub content: String,
    pub reply: bool,
    pub retweet: bool,
}

impl Summary for Tweet {
    open spec fn author_view(&self) -> Seq<char> {
        "@"@ + self.username@
    }

    fn summarize_author(&self) -> (r: String) {
        let mut out = String::from_str("@");
        out.append(self.username.as_str());
        out
    }
}

} // verus!
