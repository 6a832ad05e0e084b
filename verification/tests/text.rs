use krunch::text::{
    chars_of, contains, ends_with, find, format_number, is_whitespace, lines,
    pad_right, replace, replace_char, same_text, split, starts_with, string_of, trim, trim_text,
    words,
};

fn v(s: &str) -> Vec<char> {
    s.chars().collect()
}

fn vs(parts: &[&str]) -> Vec<Vec<char>> {
    parts.iter().map(|p| v(p)).collect()
}

#[test]
fn chars_and_strings_convert_both_ways() {
    assert_eq!(chars_of("a\u{e4}\u{1f600}b"), v("a\u{e4}\u{1f600}b"));
    assert_eq!(string_of(&v("a\u{e4}\u{1f600}b")), "a\u{e4}\u{1f600}b");
    assert_eq!(chars_of(""), Vec::<char>::new());
    assert!(same_text("abc", "abc"));
    assert!(!same_text("abc", "abd"));
}

#[test]
fn whitespace_is_what_std_takes_for_it() {
    let mut c = 0u32;
    while c < 0x3100 {
        if let Some(ch) = char::from_u32(c) {
            assert_eq!(is_whitespace(ch), ch.is_whitespace(), "U+{:04X}", c);
        }
        c += 1;
    }
}

#[test]
fn trim_removes_white_space_at_both_ends_only() {
    assert_eq!(trim_text("  a b \t\n"), "a b");
    assert_eq!(trim_text("\u{a0}x\u{3000}"), "x");
    assert_eq!(trim_text(" \n\t "), "");
    assert_eq!(trim_text(""), "");
    assert_eq!(trim_text("abc"), "abc");
    assert_eq!(trim(&v(" a ")), v("a"));
    for s in ["", " ", "a", " a", "a ", "  a  b  ", "\r\n x \r\n"] {
        assert_eq!(trim_text(s), s.trim());
    }
}

#[test]
fn find_gives_the_first_occurrence() {
    assert_eq!(find(&v("abcabc"), &v("bc")), Some(1));
    assert_eq!(find(&v("abcabc"), &v("abc")), Some(0));
    assert_eq!(find(&v("abcabc"), &v("cab")), Some(2));
    assert_eq!(find(&v("abcabc"), &v("abcabc")), Some(0));
    assert_eq!(find(&v("abc"), &v("abcd")), None);
    assert_eq!(find(&v("abc"), &v("x")), None);
    assert_eq!(find(&v("abc"), &v("")), Some(0));
    assert_eq!(find(&v(""), &v("")), Some(0));
    assert_eq!(find(&v("aab"), &v("ab")), Some(1));
}

#[test]
fn contains_starts_and_ends() {
    assert!(contains("export DOCKER_HOST=x", "DOCKER_HOST"));
    assert!(!contains("export DOCKER", "DOCKER_HOST"));
    assert!(contains("abc", ""));
    assert!(starts_with("docker-buildx.exe", "docker-buildx"));
    assert!(!starts_with("docker", "docker-buildx"));
    assert!(starts_with("abc", ""));
    assert!(ends_with("a.tar.gz", ".tar.gz"));
    assert!(!ends_with("a.tar.gz", ".tgz"));
    assert!(!ends_with("gz", ".tar.gz"));
    assert!(ends_with("abc", ""));
}

#[test]
fn split_gives_one_more_piece_than_separators() {
    assert_eq!(split(&v("a=b"), '='), vs(&["a", "b"]));
    assert_eq!(split(&v("a=b=c"), '='), vs(&["a", "b", "c"]));
    assert_eq!(split(&v("="), '='), vs(&["", ""]));
    assert_eq!(split(&v(""), '='), vs(&[""]));
    assert_eq!(split(&v("abc"), '='), vs(&["abc"]));
    assert_eq!(split(&v("=a="), '='), vs(&["", "a", ""]));
    for s in ["", "=", "a=b", "==", "a==b=", "no separator"] {
        let expected: Vec<Vec<char>> = s.split('=').map(|p| p.chars().collect()).collect();
        assert_eq!(split(&v(s), '='), expected);
    }
}

#[test]
fn lines_are_those_of_std() {
    assert_eq!(lines(&v("a\nb")), vs(&["a", "b"]));
    assert_eq!(lines(&v("a\nb\n")), vs(&["a", "b"]));
    assert_eq!(lines(&v("a\r\nb\r\n")), vs(&["a", "b"]));
    assert_eq!(lines(&v("a\n\nb")), vs(&["a", "", "b"]));
    assert_eq!(lines(&v("")), Vec::<Vec<char>>::new());
    assert_eq!(lines(&v("\n")), vs(&[""]));
    assert_eq!(lines(&v("a\r")), vs(&["a\r"]));
    assert_eq!(lines(&v("a\rb\n")), vs(&["a\rb"]));
    for s in ["", "\n", "\r\n", "a", "a\n", "a\r", "a\r\n", "\n\n", "a\n\r\nb\r", "x\r\r\ny"] {
        let expected: Vec<Vec<char>> = s.lines().map(|p| p.chars().collect()).collect();
        assert_eq!(lines(&v(s)), expected, "{:?}", s);
    }
}

#[test]
fn words_are_those_of_std() {
    assert_eq!(words(&v("-n hello world")), vs(&["-n", "hello", "world"]));
    assert_eq!(words(&v("  a \t b\n")), vs(&["a", "b"]));
    assert_eq!(words(&v("")), Vec::<Vec<char>>::new());
    assert_eq!(words(&v("   ")), Vec::<Vec<char>>::new());
    for s in ["", " ", "a", " a", "a ", "a b", "a  b", "\ta\nb c ", "one"] {
        let expected: Vec<Vec<char>> =
            s.split_whitespace().map(|p| p.chars().collect()).collect();
        assert_eq!(words(&v(s)), expected, "{:?}", s);
    }
}

#[test]
fn replace_char_replaces_every_occurrence() {
    assert_eq!(replace_char(&v("\"1\""), '"', &v("")), v("1"));
    assert_eq!(replace_char(&v("C:/a/b"), '/', &v("\\")), v("C:\\a\\b"));
    assert_eq!(replace_char(&v("a.b"), '.', &v("--")), v("a--b"));
    assert_eq!(replace_char(&v(""), '.', &v("--")), v(""));
}

#[test]
fn replace_is_that_of_std() {
    assert_eq!(replace(&v("a;b;c"), &v(";b"), &v("")), v("a;c"));
    assert_eq!(replace(&v("aaa"), &v("aa"), &v("b")), v("ba"));
    assert_eq!(replace(&v("abc"), &v(""), &v("-")), v("-a-b-c-"));
    assert_eq!(replace(&v(""), &v(""), &v("-")), v("-"));
    assert_eq!(replace(&v("abc"), &v("abcd"), &v("-")), v("abc"));
    for (hay, needle, by) in [
        ("", "a", "b"),
        ("aaaa", "aa", "x"),
        ("abab", "ab", ""),
        ("xabx", "ab", "abab"),
        ("abc", "", "/"),
        ("hello world", "o", "0"),
        ("ab", "abc", "x"),
    ] {
        assert_eq!(replace(&v(hay), &v(needle), &v(by)), v(&hay.replace(needle, by)));
    }
}

#[test]
fn numbers_are_written_in_decimal() {
    assert_eq!(format_number(0), "0");
    assert_eq!(format_number(7), "7");
    assert_eq!(format_number(10), "10");
    assert_eq!(format_number(-1), "-1");
    assert_eq!(format_number(127), "127");
    assert_eq!(format_number(i32::MAX), "2147483647");
    assert_eq!(format_number(i32::MIN), "-2147483648");
}

#[test]
fn padding_fills_up_to_the_width() {
    assert_eq!(pad_right("ab", 5), "ab   ");
    assert_eq!(pad_right("abcde", 5), "abcde");
    assert_eq!(pad_right("abcdef", 5), "abcdef");
    assert_eq!(pad_right("", 0), "");
    assert_eq!(pad_right("\u{e4}", 3), "\u{e4}  ");
    assert_eq!(pad_right("creating DNS entry", 35), format!("{:<35}", "creating DNS entry"));
}
