use git_gui::text::chars_of;
use git_gui::text::chars_before;
use git_gui::text::contains_text;
use git_gui::text::decimal_string;
use git_gui::text::ends_with;
use git_gui::text::join;
use git_gui::text::lines_of;
use git_gui::text::parse_unsigned;
use git_gui::text::same_text;
use git_gui::text::starts_with;
use git_gui::text::string_of;
use git_gui::text::take_chars;
use git_gui::text::text_before_or_equal;
use git_gui::text::trim_chars;

fn lines(s: &str) -> Vec<String> {
    lines_of(&chars_of(s)).iter().map(string_of).collect()
}

fn trimmed(s: &str) -> String {
    string_of(&trim_chars(&chars_of(s)))
}

#[test]
fn chars_round_trip() {
    let v = chars_of("héllo");
    assert_eq!(v, vec!['h', 'é', 'l', 'l', 'o']);
    assert_eq!(string_of(&v), "héllo");
    assert_eq!(string_of(&chars_of("")), "");
}

#[test]
fn lines_split_like_std() {
    for text in [
        "",
        "a",
        "a\n",
        "a\nb",
        "a\r\nb\r\n",
        "\n",
        "\n\n",
        "a\n\nb",
        "a\r",
        "a\r\n",
        "\r\n",
        "a\rb\nc",
        "a\r\r\nb",
        "last\nline\r",
    ] {
        let expected: Vec<String> = text.lines().map(String::from).collect();
        assert_eq!(lines(text), expected, "text {:?}", text);
    }
}

#[test]
fn lines_exact_values() {
    assert_eq!(lines("one\ntwo\r\nthree"), vec!["one", "two", "three"]);
    assert_eq!(lines("x\n\ny\n"), vec!["x", "", "y"]);
    assert!(lines("").is_empty());
}

#[test]
fn join_puts_line_feeds_between() {
    let parts = vec![chars_of("a"), chars_of(""), chars_of("c")];
    assert_eq!(join(&parts), "a\n\nc");
    assert_eq!(join(&Vec::new()), "");
    assert_eq!(join(&vec![chars_of("only")]), "only");
}

#[test]
fn prefix_and_suffix() {
    assert!(starts_with(&chars_of("<<<<<<< HEAD"), &chars_of("<<<<<<<")));
    assert!(!starts_with(&chars_of("<<<"), &chars_of("<<<<<<<")));
    assert!(starts_with(&chars_of("abc"), &chars_of("")));
    assert!(ends_with(&chars_of("origin/HEAD"), &chars_of("/HEAD")));
    assert!(!ends_with(&chars_of("origin/HEAD2"), &chars_of("/HEAD")));
    assert!(!ends_with(&chars_of("AD"), &chars_of("/HEAD")));
}

#[test]
fn decimal_numerals() {
    assert_eq!(decimal_string(0), "0");
    assert_eq!(decimal_string(7), "7");
    assert_eq!(decimal_string(10), "10");
    assert_eq!(decimal_string(1234567890), "1234567890");
    assert_eq!(decimal_string(u64::MAX), "18446744073709551615");
}

#[test]
fn same_text_compares_contents() {
    assert!(same_text("abc", "abc"));
    assert!(!same_text("abc", "abd"));
    assert!(!same_text("abc", "ab"));
    assert!(same_text("", ""));
}

#[test]
fn take_chars_keeps_short_texts() {
    assert_eq!(take_chars("0123456789", 7), "0123456");
    assert_eq!(take_chars("abc", 7), "abc");
    assert_eq!(take_chars("", 7), "");
}

#[test]
fn text_order_is_the_order_of_str() {
    let samples = ["", "a", "A", "ab", "abc", "b", "main", "feature/x", "origin/main", "é", "z", "ä"];
    for a in samples {
        for b in samples {
            assert_eq!(text_before_or_equal(a, b), a <= b, "{:?} {:?}", a, b);
        }
    }
}

#[test]
fn trim_removes_whitespace_around() {
    for text in ["", "  ", " a ", "a", "\n\ta b\r\n", "\u{2003}x\u{00a0}", "x  y"] {
        assert_eq!(trimmed(text), text.trim(), "text {:?}", text);
    }
}

#[test]
fn chars_before_stops_at_first_hit() {
    assert_eq!(string_of(&chars_before(&chars_of("main: wip"), ':')), "main");
    assert_eq!(string_of(&chars_before(&chars_of("no colon"), ':')), "no colon");
    assert_eq!(string_of(&chars_before(&chars_of(":x"), ':')), "");
    assert_eq!(string_of(&chars_before(&chars_of("a:b:c"), ':')), "a");
}

#[test]
fn contains_text_finds_substrings() {
    let hay = chars_of("error: not logged in");
    assert!(contains_text(&hay, &chars_of("not logged")));
    assert!(contains_text(&hay, &chars_of("")));
    assert!(contains_text(&hay, &chars_of("in")));
    assert!(!contains_text(&hay, &chars_of("auth login")));
    assert!(!contains_text(&chars_of("ab"), &chars_of("abc")));
}

#[test]
fn parse_unsigned_reads_like_std() {
    for text in [
        "0",
        "1",
        "42",
        "+42",
        "007",
        "",
        "+",
        "-1",
        "4 2",
        "12a",
        "18446744073709551615",
        "18446744073709551616",
        "99999999999999999999999",
        "++1",
        "1+",
    ] {
        assert_eq!(parse_unsigned(&chars_of(text)), text.parse::<u64>().ok(), "text {:?}", text);
    }
}
