use newsfeed::display::Displayable;
use newsfeed::forms::{cloneable, foo, foo2, notify, notify_2, notify_3, notify_4};
use newsfeed::order::Orderable;
use newsfeed::pair::Pair;
use newsfeed::summary::{default_summarize, NewsArticle, Notice, Summary, Tweet};

fn sample_tweet() -> Tweet {
    Tweet {
        username: String::from("User"),
        content: String::from("of course, as you already know."),
        reply: false,
        retweet: false,
    }
}

fn sample_article() -> NewsArticle {
    NewsArticle {
        headline: String::from("Man finds cure for all!"),
        location: String::from("Pittsburgh, PA, USA"),
        author: String::from("Iceburgh"),
        content: String::from("Turns out the man is a fruad!"),
    }
}

#[test]
fn tweet_summarize_scenario() {
    let tweet = sample_tweet();
    assert_eq!(tweet.summarize(), "User: of course, as you already know.");
}

#[test]
fn article_summarize_scenario() {
    let article = sample_article();
    assert_eq!(
        article.summarize(),
        "Man finds cure for all!, by Iceburgh (Pittsburgh, PA, USA)"
    );
}

#[test]
fn overrides_return_override_not_default() {
    let tweet = sample_tweet();
    let article = sample_article();
    assert_ne!(tweet.summarize(), "(Read more...)");
    assert_ne!(article.summarize(), "(Read more...)");
}

#[test]
fn summarize_author_values() {
    let tweet = sample_tweet();
    let article = sample_article();
    assert_eq!(tweet.summarize_author(), "@User");
    assert_eq!(article.summarize_author(), "@Iceburgh");
}

#[test]
fn inherited_default_returns_default_literal() {
    let notice = Notice {
        author: String::from("Iceburgh"),
    };
    assert_eq!(notice.summarize(), "(Read more...)");
    assert_eq!(notice.summarize_author(), "@Iceburgh");
    assert_eq!(default_summarize(), "(Read more...)");
}

#[test]
fn notify_forms_agree_bytewise() {
    let tweet = sample_tweet();
    let r1 = notify(&tweet);
    let r2 = notify_2(&tweet);
    let r3 = notify_3(&tweet);
    let r4 = notify_4(&tweet);
    assert_eq!(r1, "Breaking news! User: of course, as you already know.");
    assert_eq!(r1, r2);
    assert_eq!(r2, r3);
    assert_eq!(r3, r4);
}

#[test]
fn notify_single_capability_forms_on_article() {
    let article = sample_article();
    let r1 = notify(&article);
    let r2 = notify_2(&article);
    assert_eq!(
        r1,
        "Breaking news! Man finds cure for all!, by Iceburgh (Pittsburgh, PA, USA)"
    );
    assert_eq!(r1, r2);
}

#[test]
fn notify_inherited_default() {
    let notice = Notice {
        author: String::from("User"),
    };
    assert_eq!(notify(&notice), "Breaking news! (Read more...)");
}

#[test]
fn pair_cmp_display_picks_larger() {
    let pair = Pair::new(3, 5);
    assert_eq!(pair.cmp_display(), "The larger of the pair is: 5");
    let pair = Pair::new(7, 3);
    assert_eq!(pair.cmp_display(), "The larger of the pair is: 7");
}

#[test]
fn pair_cmp_display_tie_prints_first() {
    let pair = Pair::new(5, 5);
    assert_eq!(pair.cmp_display(), "The larger of the pair is: 5");
}

#[test]
fn pair_cmp_display_negative_values() {
    let pair = Pair::new(-10, -2);
    assert_eq!(pair.cmp_display(), "The larger of the pair is: -2");
}

#[test]
fn pair_new_keeps_fields() {
    let pair = Pair::new(1, 2);
    assert_eq!(pair.first, 1);
    assert_eq!(pair.second, 2);
}

#[test]
fn decimal_display_of_integers() {
    assert_eq!(0i32.display(), "0");
    assert_eq!(7i32.display(), "7");
    assert_eq!(12345i32.display(), "12345");
    assert_eq!((-1i32).display(), "-1");
    assert_eq!(i32::MAX.display(), "2147483647");
    assert_eq!(i32::MIN.display(), "-2147483648");
}

#[test]
fn ordering_capability_of_integers() {
    assert!(Orderable::ge(&5i32, &3));
    assert!(Orderable::ge(&5i32, &5));
    assert!(!Orderable::ge(&3i32, &5));
}

#[test]
fn tweet_display_is_its_summary() {
    let tweet = sample_tweet();
    assert_eq!(tweet.display(), tweet.summarize());
}

#[test]
fn where_clause_forms_return_their_values() {
    let tweet = sample_tweet();
    assert_eq!(foo(&3i32, &tweet), 267);
    assert_eq!(foo2(&3i32, &5i32), 123);
}

#[test]
fn cloneable_value_can_be_cloned() {
    let value = cloneable();
    let copy = value.clone();
    drop(value);
    drop(copy);
}
