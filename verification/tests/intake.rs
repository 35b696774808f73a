use twitter_video_dl::intake::{is_ascii_space, references};
use twitter_video_dl::text::{chars_of, same_text};

#[test]
fn references_keep_the_order_of_the_text() {
    assert_eq!(
        references("see a.twitter/1 and b.twitter/2"),
        vec!["a.twitter/1".to_string(), "b.twitter/2".to_string()]
    );
}

#[test]
fn text_without_references() {
    assert_eq!(references(""), Vec::<String>::new());
    assert_eq!(references("   \n\t "), Vec::<String>::new());
    assert_eq!(references("nothing to see here"), Vec::<String>::new());
    assert_eq!(references("twitte r twitt er Twitter TWITTER"), Vec::<String>::new());
}

#[test]
fn words_end_at_any_ascii_white_space() {
    assert_eq!(
        references("https://twitter.com/a/status/1\thttps://twitter.com/b/status/2\nx\r\ntwitter\x0Cmobile.twitter.com/c"),
        vec![
            "https://twitter.com/a/status/1".to_string(),
            "https://twitter.com/b/status/2".to_string(),
            "twitter".to_string(),
            "mobile.twitter.com/c".to_string(),
        ]
    );
    assert_eq!(references("  twitter  "), vec!["twitter".to_string()]);
    assert_eq!(references("twitter"), vec!["twitter".to_string()]);
    assert_eq!(references("a twitter"), vec!["twitter".to_string()]);
    assert_eq!(references("twitter a"), vec!["twitter".to_string()]);
}

#[test]
fn other_white_space_does_not_end_a_word() {
    assert_eq!(
        references("a\u{a0}twitter\u{2003}b c"),
        vec!["a\u{a0}twitter\u{2003}b".to_string()]
    );
    assert_eq!(references("x\u{b}twitter"), vec!["x\u{b}twitter".to_string()]);
}

#[test]
fn the_marker_may_stand_anywhere_in_the_word() {
    assert_eq!(
        references("xtwitter twitterx xtwitterx twittwitter twitte twitter🤖 сеть/twitter/пост"),
        vec![
            "xtwitter".to_string(),
            "twitterx".to_string(),
            "xtwitterx".to_string(),
            "twittwitter".to_string(),
            "twitter🤖".to_string(),
            "сеть/twitter/пост".to_string(),
        ]
    );
}

#[test]
fn a_reference_may_come_twice() {
    assert_eq!(
        references("twitter.com/1 twitter.com/1"),
        vec!["twitter.com/1".to_string(), "twitter.com/1".to_string()]
    );
}

#[test]
fn ascii_white_space() {
    for c in [' ', '\t', '\n', '\x0C', '\r'] {
        assert!(is_ascii_space(c));
        assert!(c.is_ascii_whitespace());
    }
    for c in ['a', '_', '\u{b}', '\u{a0}', '\u{2003}', '0'] {
        assert!(!is_ascii_space(c));
    }
}

#[test]
fn chars_of_a_text() {
    assert_eq!(chars_of(""), Vec::<char>::new());
    assert_eq!(chars_of("a_1"), vec!['a', '_', '1']);
    assert_eq!(chars_of("é🤖"), vec!['é', '🤖']);
}

#[test]
fn same_text_compares_characters() {
    assert!(same_text("", ""));
    assert!(same_text("photo", "photo"));
    assert!(same_text("é🤖", "é🤖"));
    assert!(!same_text("photo", "photos"));
    assert!(!same_text("photo", "phota"));
    assert!(!same_text("", "a"));
    assert!(!same_text("e\u{301}", "é"));
}
