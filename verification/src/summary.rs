//! Summaries of articles: a one-line teaser built around an author tag.

use vstd::prelude::*;
use vstd::string::StringExecFns;

verus! {

/// Something that can summarise itself.
pub trait Summary {
    /// The author tag of the item.
    fn summarize_author(&self) -> String;

    /// A short teaser pointing at the author.
    fn summarize(&self) -> String {
        let mut s = String::from_str("(Read more from ");
        let author = self.summarize_author();
        s.append(author.as_str());
        s.append("...)");
        s
    }
}

/// A news article with a title and a description.
pub struct NewsArticle {
    /// The headline.
    pub title: String,
    /// The body text.
    pub description: String,
}

impl Summary for NewsArticle {
    fn summarize_author(&self) -> String {
        let mut s = String::from_str("@");
        s.append(self.title.as_str());
        s
    }
}

} // verus!
