use tgbot::helpers::{capitalize_first, is_supported_url, random_greeting};
use tgbot::text::{
    contains_str, decimal_string, join_path, replace_all, safe_file_name, same_text, trim,
};

#[test]
fn supported_links_are_recognised() {
    assert!(is_supported_url("https://youtu.be/abc"));
    assert!(is_supported_url("look https://www.instagram.com/reel/xyz now"));
    assert!(is_supported_url("https://x.com/user/status/1"));
    assert!(is_supported_url("https://www.linkedin.com/posts/1"));
    assert!(!is_supported_url("hello there"));
    assert!(!is_supported_url(""));
    assert!(!is_supported_url("https://vimeo.com/123"));
}

#[test]
fn supported_url_is_a_substring_test() {
    // Any text that mentions a domain counts, as with `str::contains`.
    assert!(is_supported_url("notreddit.com.example"));
    assert!(is_supported_url("box.com"));
}

#[test]
fn capitalize_first_uppercases_only_the_first_character() {
    assert_eq!(capitalize_first("друже"), "Друже");
    assert_eq!(capitalize_first("abc def"), "Abc def");
    assert_eq!(capitalize_first(""), "");
    assert_eq!(capitalize_first("ß"), "SS");
    assert_eq!(capitalize_first("1x"), "1x");
}

#[test]
fn random_greeting_is_one_of_the_greetings() {
    let all = [
        "краљу", "баки", "царе", "легендице", "друже", "чоче", "јадо", "мајсторе", "легендо",
        "брате", "геније", "душо", "сине", "мангупе", "фрајеру", "братко", "батко", "срце",
        "пријатељу", "комшо", "комшија",
    ];
    for _ in 0..50 {
        let g = random_greeting();
        assert!(all.contains(&g));
    }
}

#[test]
fn substring_search() {
    assert!(contains_str("abcabd", "abd"));
    assert!(!contains_str("abcab", "abd"));
    assert!(contains_str("abc", ""));
    assert!(!contains_str("", "a"));
    assert!(contains_str("ааб", "аб"));
}

#[test]
fn trim_matches_std() {
    for s in ["  a b  ", "\t\nx\u{3000}", "", "   ", "\u{a0}y\u{2028}", "z"] {
        assert_eq!(trim(s), s.trim());
    }
}

#[test]
fn decimal_strings() {
    assert_eq!(decimal_string(0), "0");
    assert_eq!(decimal_string(7), "7");
    assert_eq!(decimal_string(120), "120");
    assert_eq!(decimal_string(u64::MAX), u64::MAX.to_string());
}

#[test]
fn join_path_matches_std() {
    for (d, n) in [("/tmp/x", "video.mp4"), ("/tmp/x/", "a"), ("", "a"), ("/tmp", "/abs")] {
        let expected = std::path::Path::new(d).join(n).to_string_lossy().into_owned();
        assert_eq!(join_path(d, n), expected);
    }
}

#[test]
fn safe_file_names() {
    assert_eq!(safe_file_name("a/b\\c:d"), "a_b_c_d");
    assert_eq!(safe_file_name("Песма - 1"), "Песма - 1");
}

#[test]
fn replace_matches_std() {
    for (s, p, r) in [
        ("x /PATH/TO/tgbot/rust y /PATH/TO/tgbot/rust", "/PATH/TO/tgbot/rust", "/home/me/bot"),
        ("aaa", "aa", "b"),
        ("none here", "zz", "q"),
        ("", "a", "b"),
    ] {
        assert_eq!(replace_all(s, p, r), s.replace(p, r));
    }
}

#[test]
fn same_text_compares_characters() {
    assert!(same_text("long_audio", "long_audio"));
    assert!(!same_text("long_audio", "long_audi"));
    assert!(!same_text("a", "b"));
}
