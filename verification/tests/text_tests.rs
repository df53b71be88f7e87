use buildme::text::{
    chars_of, decimal, eq_ignore_ascii_case, lines, same, slice, split, starts_with,
    strip_trailing, to_ascii_lower, trim, two_digits, whitespace,
};

fn owned(parts: &[&str]) -> Vec<String> {
    parts.iter().map(|part| part.to_string()).collect()
}

#[test]
fn split_gives_every_piece() {
    assert_eq!(split("a,b,,c", ','), owned(&["a", "b", "", "c"]));
    assert_eq!(split("clean", ','), owned(&["clean"]));
}

#[test]
fn split_of_nothing_is_one_empty_piece() {
    assert_eq!(split("", ','), owned(&[""]));
    assert_eq!(split(",", ','), owned(&["", ""]));
    assert_eq!(split(",a,", ','), owned(&["", "a", ""]));
}

#[test]
fn split_agrees_with_std() {
    for input in ["", ",", "a", "a,b", ",,", "é,ü", "build, install", "x,,y,"] {
        let expected: Vec<String> = input.split(',').map(|part| part.to_string()).collect();
        assert_eq!(split(input, ','), expected);
    }
}

#[test]
fn lines_drop_their_terminators() {
    assert_eq!(lines("a\nb\r\n\nc"), owned(&["a", "b", "", "c"]));
    assert_eq!(lines("a\n"), owned(&["a"]));
    assert_eq!(lines("\n"), owned(&[""]));
    assert_eq!(lines(""), Vec::<String>::new());
}

#[test]
fn lines_keep_a_lone_carriage_return() {
    assert_eq!(lines("a\rb"), owned(&["a\rb"]));
    assert_eq!(lines("a\r"), owned(&["a\r"]));
    assert_eq!(lines("a\r\r\n"), owned(&["a\r"]));
}

#[test]
fn lines_agree_with_std() {
    for input in ["", "\n", "\r\n", "a", "a\n", "a\nb", "a\r\nb\r\n", "\n\n", "x\r", "\r\n\r", "é\nü\n\n"] {
        let expected: Vec<String> = input.lines().map(|line| line.to_string()).collect();
        assert_eq!(lines(input), expected);
    }
}

#[test]
fn trim_removes_white_space_at_both_ends() {
    assert_eq!(trim("  project(demo)\t"), "project(demo)");
    assert_eq!(trim("a b"), "a b");
    assert_eq!(trim(" \n\t "), "");
    assert_eq!(trim(""), "");
    assert_eq!(trim("\u{3000}x\u{a0}"), "x");
}

#[test]
fn white_space_is_what_unicode_says() {
    for code in 0u32..0x11000 {
        if let Some(c) = char::from_u32(code) {
            assert_eq!(whitespace(c), c.is_whitespace());
        }
    }
}

#[test]
fn trim_agrees_with_std() {
    for input in ["", " ", "a", " a", "a ", "\t a \r\n", "\u{2003}é\u{85}", " a  b "] {
        assert_eq!(trim(input), input.trim());
    }
}

#[test]
fn starts_with_compares_the_beginning() {
    assert!(starts_with("project(demo)", "project("));
    assert!(starts_with("project(", "project("));
    assert!(starts_with("anything", ""));
    assert!(!starts_with("proj", "project("));
    assert!(!starts_with("Project(demo)", "project("));
}

#[test]
fn strip_trailing_removes_the_whole_run() {
    assert_eq!(strip_trailing("demo)", ')'), "demo");
    assert_eq!(strip_trailing("demo))", ')'), "demo");
    assert_eq!(strip_trailing("de)mo", ')'), "de)mo");
    assert_eq!(strip_trailing(")))", ')'), "");
    assert_eq!(strip_trailing("", ')'), "");
}

#[test]
fn ascii_case_is_ignored_and_nothing_else() {
    assert!(eq_ignore_ascii_case("clean", "CLEAN"));
    assert!(eq_ignore_ascii_case("Install", "iNSTALL"));
    assert!(eq_ignore_ascii_case("", ""));
    assert!(!eq_ignore_ascii_case("clean", "cleans"));
    assert!(!eq_ignore_ascii_case("clean", "clear"));
    assert!(!eq_ignore_ascii_case("é", "É"));
    assert_eq!(to_ascii_lower('Q'), 'q');
    assert_eq!(to_ascii_lower('q'), 'q');
    assert_eq!(to_ascii_lower('['), '[');
    assert_eq!(to_ascii_lower('@'), '@');
}

#[test]
fn decimal_writes_numbers_without_leading_zeros() {
    assert_eq!(decimal(0), "0");
    assert_eq!(decimal(7), "7");
    assert_eq!(decimal(10), "10");
    assert_eq!(decimal(12345), "12345");
    assert_eq!(decimal(u64::MAX), "18446744073709551615");
}

#[test]
fn two_digits_pads_with_a_zero() {
    assert_eq!(two_digits(0), "00");
    assert_eq!(two_digits(9), "09");
    assert_eq!(two_digits(10), "10");
    assert_eq!(two_digits(123), "123");
}

#[test]
fn characters_and_slices() {
    assert_eq!(chars_of("aé"), vec!['a', 'é']);
    assert_eq!(slice("héllo", 1, 3), "él");
    assert_eq!(slice("héllo", 2, 2), "");
    assert!(same("abc", "abc"));
    assert!(!same("abc", "abd"));
}
