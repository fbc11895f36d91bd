use vibe_git::paths::join_path;
use vibe_git::text::{
    chars_eq, contains, decimal_text, ends_with, join2, join3, lines, same_text,
    split_bytes, split_chars, starts_with, strip_prefix, strip_suffix, text_of, to_chars, trim,
};

fn chars(s: &str) -> Vec<char> {
    s.chars().collect()
}

#[test]
fn characters_round_trip() {
    let v = to_chars("héllo");
    assert_eq!(v, vec!['h', 'é', 'l', 'l', 'o']);
    assert_eq!(text_of(&v), "héllo");
    assert!(chars_eq(&v, &chars("héllo")));
    assert!(!chars_eq(&v, &chars("hello")));
    assert!(!chars_eq(&v, &chars("héll")));
    assert!(same_text("a", "a"));
    assert!(!same_text("a", "b"));
}

#[test]
fn joining_appends() {
    assert_eq!(join2("ab", "cd"), "abcd");
    assert_eq!(join2("", ""), "");
    assert_eq!(join3("a", "-", "b"), "a-b");
}

#[test]
fn trimming_removes_whitespace_at_both_ends_only() {
    assert_eq!(trim("  a b \t\r\n"), "a b");
    assert_eq!(trim(" \n "), "");
    assert_eq!(trim(""), "");
    assert_eq!(trim("x"), "x");
    assert_eq!(trim("\u{a0}x\u{2003}"), "x");
}

#[test]
fn prefixes_suffixes_and_infixes() {
    assert!(starts_with("refs/heads/main", "refs/heads/"));
    assert!(!starts_with("refs", "refs/heads/"));
    assert!(starts_with("abc", ""));
    assert!(ends_with("origin/HEAD", "/HEAD"));
    assert!(!ends_with("HEAD", "/HEAD"));
    assert!(contains("error: CONFLICT (content)", "CONFLICT"));
    assert!(!contains("error: conflict", "CONFLICT"));
    assert!(contains("abc", ""));
    assert!(!contains("ab", "abc"));
    assert_eq!(strip_prefix("branch refs/heads/x", "branch "), Some("refs/heads/x".to_string()));
    assert_eq!(strip_prefix("xbranch ", "branch "), None);
    assert_eq!(strip_suffix("url (fetch)", " (fetch)"), Some("url".to_string()));
    assert_eq!(strip_suffix("url (push)", " (fetch)"), None);
}

#[test]
fn splitting_keeps_empty_pieces() {
    assert_eq!(split_chars(&chars("a\tb\t"), '\t'), vec![chars("a"), chars("b"), chars("")]);
    assert_eq!(split_chars(&chars(""), '\t'), vec![chars("")]);
    assert_eq!(split_chars(&chars("\t"), '\t'), vec![chars(""), chars("")]);
    assert_eq!(split_bytes(&b"ab\0c".to_vec(), 0), vec![b"ab".to_vec(), b"c".to_vec()]);
    assert_eq!(split_bytes(&b"\0\0".to_vec(), 0), vec![vec![], vec![], vec![]]);
}

#[test]
fn lines_are_cut_as_the_standard_library_cuts_them() {
    let cases = ["", "\n", "a", "a\n", "a\nb", "a\r\nb\r\n", "a\r", "a\n\nb\n", "\r\n", "a\r\n\r"];
    for case in cases {
        let expected: Vec<Vec<char>> = case.lines().map(|l| l.chars().collect()).collect();
        assert_eq!(lines(case), expected);
    }
}

#[test]
fn numbers_are_written_in_decimal() {
    assert_eq!(decimal_text(0), "0");
    assert_eq!(decimal_text(7), "7");
    assert_eq!(decimal_text(10), "10");
    assert_eq!(decimal_text(120345), "120345");
    assert_eq!(decimal_text(usize::MAX), usize::MAX.to_string());
}

#[test]
fn paths_are_joined_with_one_slash() {
    assert_eq!(join_path("/ws", "repo"), "/ws/repo");
    assert_eq!(join_path("/ws/", "repo"), "/ws/repo");
    assert_eq!(join_path("", "repo"), "repo");
    assert_eq!(join_path("/ws", "/abs"), "/abs");
    assert_eq!(join_path("/ws", ""), "/ws/");
    for (base, name) in [("/ws", "repo"), ("/ws/", "repo"), ("", "repo"), ("/ws", "/abs"), ("/ws", "")] {
        let expected = std::path::Path::new(base).join(name);
        assert_eq!(join_path(base, name), expected.to_string_lossy());
    }
}

#[test]
fn whitespace_is_the_set_of_white_space_characters() {
    let listed = |n: u32| {
        (0x09..=0x0d).contains(&n)
            || n == 0x20
            || n == 0x85
            || n == 0xa0
            || n == 0x1680
            || (0x2000..=0x200a).contains(&n)
            || n == 0x2028
            || n == 0x2029
            || n == 0x202f
            || n == 0x205f
            || n == 0x3000
    };
    let mut buffer = String::new();
    for n in 0..=0x10ffffu32 {
        if let Some(c) = char::from_u32(n) {
            buffer.clear();
            buffer.push(c);
            assert_eq!(trim(&buffer).is_empty(), listed(n), "U+{:04X}", n);
        }
    }
}
