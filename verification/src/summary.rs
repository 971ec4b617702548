//! The `Summary` capability: one required operation (`summarize_author`) and
//! one defaulted operation (`summarize`, whose shared default body returns the
//! literal `"(Read more...)"`), together with the record types that implement
//! it.

use vstd::prelude::*;
use vstd::string::StringExecFns;
use crate::display::Displayable;

verus! {

/// The text the defaulted `summarize` operation returns when a type inherits
/// it unchanged.
pub open spec fn default_summary() -> Seq<char> {
    "(Read more...)"@
}

/// The shared default body of `summarize`, defined once beside the contract:
/// a type that does not override the operation returns exactly this text.
pub fn default_summarize() -> (r: String)
    ensures
        r@ == default_summary(),
{
    String::from_str("(Read more...)")
}

/// A capability with one abstract operation (`summarize_author`: every
/// implementer supplies it) and one defaulted operation (`summarize`: an
/// implementer may override it, or inherit the default by keeping the
/// defaulted `spec_summarize` and returning `default_summarize()`).
pub trait Summary {
    /// The text `summarize_author` returns, fixed by each implementer.
    spec fn spec_summarize_author(&self) -> Seq<char>;

    /// The text `summarize` returns; the default is the shared literal.
    open spec fn spec_summarize(&self) -> Seq<char> {
        default_summary()
    }

    fn summarize_author(&self) -> (r: String)
        ensures
            r@ == self.spec_summarize_author(),
    ;

    fn summarize(&self) -> (r: String)
        ensures
            r@ == self.spec_summarize(),
    ;
}

/// A news article; it overrides both operations of `Summary`.
pub struct NewsArticle {
    pub headline: String,
    pub location: String,
    pub author: String,
    pub content: String,
}

impl Summary for NewsArticle {
    open spec fn spec_summarize_author(&self) -> Seq<char> {
        "@"@ + self.author@
    }

    open spec fn spec_summarize(&self) -> Seq<char> {
        self.headline@ + ", by "@ + self.author@ + " ("@ + self.location@ + ")"@
    }

    fn summarize_author(&self) -> (r: String) {
        String::from_str("@").concat(self.author.as_str())
    }

    fn summarize(&self) -> (r: String) {
        String::from_str(self.headline.as_str())
            .concat(", by ")
            .concat(self.author.as_str())
            .concat(" (")
            .concat(self.location.as_str())
            .concat(")")
    }
}

/// A short post; it overrides both operations of `Summary`.
pub struct Tweet {
    pub username: String,
    pub content: String,
    pub reply: bool,
    pub retweet: bool,
}

impl Summary for Tweet {
    open spec fn spec_summarize_author(&self) -> Seq<char> {
        "@"@ + self.username@
    }

    open spec fn spec_summarize(&self) -> Seq<char> {
        self.username@ + ": "@ + self.content@
    }

    fn summarize_author(&self) -> (r: String) {
        String::from_str("@").concat(self.username.as_str())
    }

    fn summarize(&self) -> (r: String) {
        String::from_str(self.username.as_str())
            .concat(": ")
            .concat(self.content.as_str())
    }
}

/// A tweet's textual form under the display capability is its summary, so a
/// tweet satisfies the capability set {summarizable, displayable}.
impl Displayable for Tweet {
    open spec fn spec_display(&self) -> Seq<char> {
        self.spec_summarize()
    }

    fn display(&self) -> (r: String) {
        self.summarize()
    }
}

/// A bulletin that supplies only the required operation and inherits the
/// defaulted `summarize` unchanged.
pub struct Notice {
    pub author: String,
}

impl Summary for Notice {
    open spec fn spec_summarize_author(&self) -> Seq<char> {
        "@"@ + self.author@
    }

    fn summarize_author(&self) -> (r: String) {
        String::from_str("@").concat(self.author.as_str())
    }

    fn summarize(&self) -> (r: String) {
        default_summarize()
    }
}

/// A type that inherits the defaulted operation returns exactly the default
/// literal: a `Notice` does not override `summarize`, so its summary is
/// `default_summary()`.
pub proof fn lemma_notice_uses_default(n: &Notice)
    ensures
        n.spec_summarize() == default_summary(),
{
}

/// An overridden `summarize` is never the contract's default literal: a
/// tweet's summary carries a ':' right after the username, and the default
/// literal holds no ':' at all.
pub proof fn lemma_tweet_summary_not_default(t: &Tweet)
    ensures
        t.spec_summarize() != default_summary(),
{
    reveal_strlit(": ");
    reveal_strlit("(Read more...)");
    let n = t.username@.len() as int;
    assert(t.spec_summarize()[n] == ':');
    if t.spec_summarize() == default_summary() {
        assert(default_summary().len() == 14);
        assert(0 <= n < 14);
        assert(default_summary()[n] == ':');
        assert(default_summary()[0] != ':');
        assert(default_summary()[1] != ':');
        assert(default_summary()[2] != ':');
        assert(default_summary()[3] != ':');
        assert(default_summary()[4] != ':');
        assert(default_summary()[5] != ':');
        assert(default_summary()[6] != ':');
        assert(default_summary()[7] != ':');
        assert(default_summary()[8] != ':');
        assert(default_summary()[9] != ':');
        assert(default_summary()[10] != ':');
        assert(default_summary()[11] != ':');
        assert(default_summary()[12] != ':');
        assert(default_summary()[13] != ':');
        assert(false);
    }
}

/// An overridden `summarize` is never the contract's default literal: an
/// article's summary carries a ',' right after the headline, and the default
/// literal holds no ',' at all.
pub proof fn lemma_article_summary_not_default(a: &NewsArticle)
    ensures
        a.spec_summarize() != default_summary(),
{
    reveal_strlit(", by ");
    reveal_strlit("(Read more...)");
    let n = a.headline@.len() as int;
    assert(a.spec_summarize()[n] == ',');
    if a.spec_summarize() == default_summary() {
        assert(default_summary().len() == 14);
        assert(0 <= n < 14);
        assert(default_summary()[n] == ',');
        assert(default_summary()[0] != ',');
        assert(default_summary()[1] != ',');
        assert(default_summary()[2] != ',');
        assert(default_summary()[3] != ',');
        assert(default_summary()[4] != ',');
        assert(default_summary()[5] != ',');
        assert(default_summary()[6] != ',');
        assert(default_summary()[7] != ',');
        assert(default_summary()[8] != ',');
        assert(default_summary()[9] != ',');
        assert(default_summary()[10] != ',');
        assert(default_summary()[11] != ',');
        assert(default_summary()[12] != ',');
        assert(default_summary()[13] != ',');
        assert(false);
    }
}

} // verus!
