//! Articles and tweets, and the traits that summarise them.
use vstd::prelude::*;

verus! {

/// Something that can be summarised in a line.
pub trait Summary {
    /// The summary of this item.
    spec fn summary(&self) -> Seq<char>;

    /// The summary of this item.
    fn summarize(&self) -> (r: String)
        ensures
            r@ == self.summary(),
    ;

    /// A placeholder to show where no summary is written.
    fn default_example(&self) -> (r: String)
        ensures
            r@ == "Read more..."@,
    {
        String::from_str("Read more...")
    }
}

/// A news article.
pub struct NewsArticle {
    pub headline: String,
    pub location: String,
    pub author: String,
    pub content: String,
}

impl Summary for NewsArticle {
    /// The headline, then the author, then the location in parentheses.
    open spec fn summary(&self) -> Seq<char> {
        self.headline@ + ", by "@ + self.author@ + " ("@ + self.location@ + ")"@
    }

    fn summarize(&self) -> (r: String) {
        let s = self.headline.clone().concat(", by ");
        let s = s.concat(self.author.as_str());
        let s = s.concat(" (");
        let s = s.concat(self.location.as_str());
        s.concat(")")
    }
}

/// A short post.
pub struct Tweet {
    pub username: String,
    pub content: String,
    pub reply: bool,
    pub retweet: bool,
}

impl Summary for Tweet {
    /// The username, a colon, then the content.
    open spec fn summary(&self) -> Seq<char> {
        self.username@ + ": "@ + self.content@
    }

    fn summarize(&self) -> (r: String) {
        let s = self.username.clone().concat(": ");
        s.concat(self.content.as_str())
    }
}

/// A summary that also offers a longer form built from it.
pub trait SharedDefaults {
    /// The summary of this item.
    spec fn short_form(&self) -> Seq<char>;

    /// The summary of this item.
    fn summarise(&self) -> (r: String)
        ensures
            r@ == self.short_form(),
    ;

    /// The summary, introduced.
    fn uses_other_fn(&self) -> (r: String)
        ensures
            r@ == "Oh we'll be here: "@ + self.short_form() + " "@,
    {
        let s = String::from_str("Oh we'll be here: ");
        let summary = self.summarise();
        let s = s.concat(summary.as_str());
        s.concat(" ")
    }
}

impl SharedDefaults for Tweet {
    /// The content, introduced as an example.
    open spec fn short_form(&self) -> Seq<char> {
        "Example: "@ + self.content@
    }

    fn summarise(&self) -> (r: String) {
        let s = String::from_str("Example: ");
        s.concat(self.content.as_str())
    }
}


/// A sample tweet, handed out as something to summarise.
pub fn returns_summarise() -> (r: Tweet)
    ensures
        r.username@ == "horse_ebooks"@,
        r.content@ == "of course, as you probably already know, people"@,
        !r.reply,
        !r.retweet,
{
    Tweet {
        username: String::from_str("horse_ebooks"),
        content: String::from_str("of course, as you probably already know, people"),
        reply: false,
        retweet: false,
    }
}

} // verus!
