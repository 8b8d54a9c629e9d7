use isolate_sandbox::text::{append_decimal, append_signed, chars_of, join_path, line_ranges};
use isolate_sandbox::text::{matches_at, parse_decimal, replace_text, split_lines};
use std::path::Path;

fn parse(text: &str) -> Option<u64> {
    let chars = chars_of(text);
    parse_decimal(&chars, 0, chars.len())
}

#[test]
fn chars_of_keeps_every_character() {
    assert_eq!(chars_of("aé\n"), vec!['a', 'é', '\n']);
    assert_eq!(chars_of(""), Vec::<char>::new());
}

#[test]
fn parse_decimal_reads_digits() {
    assert_eq!(parse("0"), Some(0));
    assert_eq!(parse("0042"), Some(42));
    assert_eq!(parse("18446744073709551615"), Some(u64::MAX));
}

#[test]
fn parse_decimal_rejects_what_is_no_number() {
    assert_eq!(parse(""), None);
    assert_eq!(parse("12a"), None);
    assert_eq!(parse("-1"), None);
    assert_eq!(parse(" 1"), None);
    assert_eq!(parse("18446744073709551616"), None);
    assert_eq!(parse("99999999999999999999999"), None);
}

#[test]
fn parse_decimal_reads_a_range() {
    let chars = chars_of("ab123cd");
    assert_eq!(parse_decimal(&chars, 2, 5), Some(123));
    assert_eq!(parse_decimal(&chars, 2, 2), None);
    assert_eq!(parse_decimal(&chars, 1, 5), None);
}

#[test]
fn append_decimal_writes_like_std() {
    for n in [0u64, 7, 10, 99, 100, 4294967295, u64::MAX] {
        let mut out = String::from("n=");
        append_decimal(&mut out, n);
        assert_eq!(out, format!("n={}", n));
    }
}

#[test]
fn append_signed_writes_like_std() {
    for n in [0i32, 1, -1, 255, -255, i32::MAX, i32::MIN] {
        let mut out = String::new();
        append_signed(&mut out, n);
        assert_eq!(out, format!("{}", n));
    }
}

#[test]
fn matches_at_finds_the_pattern() {
    let text = chars_of("abcabc");
    let pat = chars_of("bc");
    assert!(!matches_at(&text, &pat, 0));
    assert!(matches_at(&text, &pat, 1));
    assert!(matches_at(&text, &pat, 4));
}

#[test]
fn replace_text_agrees_with_std() {
    let cases = [
        ("", "a", "b"),
        ("aaa", "a", "bb"),
        ("aaaa", "aa", "b"),
        ("aaa", "aa", "b"),
        ("abcabc", "bc", ""),
        ("abc", "abcd", "x"),
        ("abc", "", "-"),
        ("", "", "-"),
        ("y/a.py/a.py", "y/a.py", "*******.py"),
        ("héllo wörld", "ö", "oe"),
    ];
    for (text, pat, rep) in cases {
        assert_eq!(replace_text(text, pat, rep), text.replace(pat, rep));
    }
}

#[test]
fn replace_text_exact_values() {
    assert_eq!(replace_text("aaaa", "aa", "b"), "bb");
    assert_eq!(replace_text("abc", "", "-"), "-a-b-c-");
    assert_eq!(replace_text("x/tmp/s.py:1 /tmp/s.py", "/tmp/s.py", "*"), "x*:1 *");
}

#[test]
fn split_lines_drops_empty_lines_and_endings() {
    assert_eq!(split_lines("a\nb\n"), vec!["a", "b"]);
    assert_eq!(split_lines("a\r\n\r\nb"), vec!["a", "b"]);
    assert_eq!(split_lines("\n\n"), Vec::<String>::new());
    assert_eq!(split_lines(""), Vec::<String>::new());
    assert_eq!(split_lines("out.png"), vec!["out.png"]);
    assert_eq!(split_lines("a\rb\r"), vec!["a\rb\r"]);
}

#[test]
fn split_lines_agrees_with_std() {
    for text in ["a\nb", "a\r\nb\r\n", "\r\n", "x\n\ny\n", "tail\r", "\ra\n", "é\nü"] {
        let expected: Vec<String> =
            text.lines().filter(|l| !l.is_empty()).map(|l| l.to_string()).collect();
        assert_eq!(split_lines(text), expected);
    }
}

#[test]
fn line_ranges_mark_the_lines() {
    let chars = chars_of("ab\n\ncd\r\ne");
    assert_eq!(line_ranges(&chars), vec![(0, 2), (4, 6), (8, 9)]);
}

#[test]
fn join_path_agrees_with_std() {
    let cases = [
        ("./config", "python"),
        ("./config/", "python"),
        ("", "compiler"),
        ("/tmp/x", "bin"),
        ("/", "bin"),
        ("a", "/abs"),
        ("a", ""),
    ];
    for (base, name) in cases {
        let expected = Path::new(base).join(name).to_str().unwrap().to_string();
        assert_eq!(join_path(base, name), expected);
    }
}

#[test]
fn join_path_exact_values() {
    assert_eq!(join_path("./config/python", "setup.sh"), "./config/python/setup.sh");
    assert_eq!(join_path("dir/", "bin"), "dir/bin");
    assert_eq!(join_path("", "bin"), "bin");
}

#[test]
fn written_numbers_read_back() {
    for n in [0u64, 9, 10, 12345, 4294967296, u64::MAX] {
        let mut out = String::new();
        append_decimal(&mut out, n);
        assert_eq!(parse(&out), Some(n));
    }
}
