use gitee_release::text::{
    begins_with, chars_of, contains_chars, ends_with_before, find_char, joined, matches_at,
    push_decimal, push_signed_decimal, same_text, slice_text, trimmed_end, trimmed_start,
};

#[test]
fn texts_are_joined() {
    assert_eq!(joined("token ", "abc"), "token abc");
    assert_eq!(joined("", ""), "");
    assert_eq!(joined("版本", "发布"), "版本发布");
}

fn chars(text: &str) -> Vec<char> {
    text.chars().collect()
}

#[test]
fn chars_of_keeps_every_character() {
    assert_eq!(chars_of(""), chars(""));
    assert_eq!(chars_of("abc"), vec!['a', 'b', 'c']);
    assert_eq!(chars_of("无效 tag"), vec!['无', '效', ' ', 't', 'a', 'g']);
}

#[test]
fn decimal_numerals() {
    for (n, text) in [
        (0u64, "0"),
        (7, "7"),
        (10, "10"),
        (123, "123"),
        (1000, "1000"),
        (u64::MAX, "18446744073709551615"),
    ] {
        let mut out = String::from("n=");
        push_decimal(&mut out, n);
        assert_eq!(out, format!("n={}", text));
    }
}

#[test]
fn signed_decimal_numerals() {
    for i in [0i64, 1, -1, 123, -123, i64::MAX, i64::MIN] {
        let mut out = String::new();
        push_signed_decimal(&mut out, i);
        assert_eq!(out, format!("{}", i));
    }
}

#[test]
fn a_pattern_is_found_where_it_stands() {
    let text = chars("feat!: remove");
    assert!(matches_at(&text, &chars("feat"), 0));
    assert!(matches_at(&text, &chars("!:"), 4));
    assert!(!matches_at(&text, &chars("!:"), 3));
    assert!(!matches_at(&text, &chars("remove"), 8));
    assert!(matches_at(&text, &chars(""), 13));
    assert!(!matches_at(&text, &chars(""), 14));
    assert!(begins_with(&text, &chars("feat")));
    assert!(!begins_with(&text, &chars("fix")));
    assert!(begins_with(&text, &chars("")));
    assert!(!begins_with(&chars("fe"), &chars("feat")));
}

#[test]
fn a_pattern_is_found_anywhere() {
    let text = chars("fix: BREAKING CHANGE in parser");
    assert!(contains_chars(&text, &chars("BREAKING CHANGE")));
    assert!(contains_chars(&text, &chars("parser")));
    assert!(contains_chars(&text, &chars("fix")));
    assert!(contains_chars(&text, &chars("")));
    assert!(!contains_chars(&text, &chars("BREAKING CHANGES")));
    assert!(!contains_chars(&text, &chars("breaking change")));
    assert!(!contains_chars(&chars(""), &chars("a")));
    assert!(contains_chars(&chars(""), &chars("")));
}

#[test]
fn the_first_of_a_character_is_found() {
    assert_eq!(find_char(&chars("host:a:b"), ':'), Some(4));
    assert_eq!(find_char(&chars(":x"), ':'), Some(0));
    assert_eq!(find_char(&chars("host"), ':'), None);
    assert_eq!(find_char(&chars(""), ':'), None);
}

#[test]
fn every_copy_of_a_suffix_is_trimmed() {
    let suffix = chars(".git");
    assert_eq!(trimmed_end(&chars("repo.git"), &suffix), 4);
    assert_eq!(trimmed_end(&chars("repo.git.git"), &suffix), 4);
    assert_eq!(trimmed_end(&chars("repo"), &suffix), 4);
    assert_eq!(trimmed_end(&chars(".git"), &suffix), 0);
    assert_eq!(trimmed_end(&chars("git"), &suffix), 3);
    assert_eq!(trimmed_end(&chars("repo.git"), &chars("")), 8);
    assert!(ends_with_before(&chars("repo.git.x"), &suffix, 8));
    assert!(!ends_with_before(&chars("repo.git.x"), &suffix, 10));
}

#[test]
fn every_copy_of_a_prefix_is_trimmed() {
    let prefix = chars("git@");
    assert_eq!(trimmed_start(&chars("git@host"), &prefix), 4);
    assert_eq!(trimmed_start(&chars("git@git@host"), &prefix), 8);
    assert_eq!(trimmed_start(&chars("host"), &prefix), 0);
    assert_eq!(trimmed_start(&chars("git@"), &prefix), 4);
    assert_eq!(trimmed_start(&chars("git@host"), &chars("")), 0);
}

#[test]
fn texts_are_compared_by_their_characters() {
    assert!(same_text("en-us", "en-us"));
    assert!(!same_text("en-us", "en-US"));
    assert!(!same_text("en-us", "en-us "));
    assert!(same_text("", ""));
    assert!(!same_text("", "a"));
}

#[test]
fn a_slice_counts_characters() {
    assert_eq!(slice_text("abcdef", 1, 3), "bc");
    assert_eq!(slice_text("无效的tag", 1, 4), "效的t");
    assert_eq!(slice_text("abc", 0, 0), "");
    assert_eq!(slice_text("abc", 0, 3), "abc");
}
