use hello_macro::ownership::{calculate_length, dangle, gives_ownership, takes_and_gives_back};
use hello_macro::summary::{Summary, Tweet};
use hello_macro::text::{first_word, greeting, longest};

#[test]
fn greeting_contains_name() {
    let result = greeting("Carol");
    assert!(
        result.contains("Carol"),
        "Greeting did not contain name, value was `{}`",
        result
    );
}

#[test]
fn greeting_exact_text() {
    assert_eq!(greeting("Carol"), "Hello Carol!");
}

#[test]
fn first_word_of_two_words() {
    assert_eq!(first_word(&String::from("hello world")), 5);
}

#[test]
fn first_word_without_space() {
    assert_eq!(first_word(&String::from("hello")), 5);
}

#[test]
fn first_word_of_empty_string() {
    assert_eq!(first_word(&String::new()), 0);
}

#[test]
fn first_word_of_leading_space() {
    assert_eq!(first_word(&String::from(" hello")), 0);
}

#[test]
fn longest_picks_longer_string() {
    let string1 = String::from("long string is long");
    let string2 = String::from("xyz");
    assert_eq!(
        longest(string1.as_str(), string2.as_str()),
        "long string is long"
    );
    assert_eq!(longest("ab", "wxyz"), "wxyz");
}

#[test]
fn longest_picks_second_on_tie() {
    assert_eq!(longest("abc", "xyz"), "xyz");
}

#[test]
fn gives_ownership_returns_fixed_string() {
    assert_eq!(gives_ownership(), "yours");
}

#[test]
fn takes_and_gives_back_is_identity() {
    assert_eq!(takes_and_gives_back(String::from("hello")), "hello");
}

#[test]
fn calculate_length_counts_bytes() {
    assert_eq!(calculate_length(&String::from("hello")), 5);
}

#[test]
fn dangle_returns_owned_string() {
    assert_eq!(dangle(), "hello");
}

#[test]
fn tweet_summarize_author_prefixes_username() {
    let tweet = Tweet {
        username: String::from("horse_ebooks"),
        content: String::from("of course, as you probably already know, people"),
        reply: false,
        retweet: false,
    };
    assert_eq!(tweet.summarize_author(), "@horse_ebooks");
}

#[test]
fn tweet_summarize_uses_default_line() {
    let tweet = Tweet {
        username: String::from("horse_ebooks"),
        content: String::from("of course, as you probably already know, people"),
        reply: false,
        retweet: false,
    };
    assert_eq!(tweet.summarize(), "(Read more from @horse_ebooks...)");
}
