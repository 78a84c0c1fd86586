use brewery::order::{name_before, sort_names};
use brewery::text::{
    decimal_string, first_nonempty_line, is_blank, join2, join3, lines, nonempty_lines,
    same_text, trim,
};

fn strings(items: &[&str]) -> Vec<String> {
    items.iter().map(|s| s.to_string()).collect()
}

#[test]
fn trim_removes_white_space_at_both_ends() {
    assert_eq!(trim("  wget \t\n"), "wget");
    assert_eq!(trim("wget"), "wget");
    assert_eq!(trim("a b"), "a b");
    assert_eq!(trim(""), "");
    assert_eq!(trim(" \t\r\n"), "");
}

#[test]
fn trim_knows_white_space_beyond_ascii() {
    assert_eq!(trim("\u{a0}wget\u{2003}"), "wget");
    assert_eq!(trim("\u{3000}"), "");
    assert_eq!(trim("été "), "été");
}

#[test]
fn trim_agrees_with_the_standard_library() {
    for s in ["", " ", "x", " x", "x ", "  x  y  ", "\n\nx\r\n", "\u{85}x\u{85}", "日本 語 "] {
        assert_eq!(trim(s), s.trim());
    }
}

#[test]
fn lines_cuts_at_line_feeds() {
    assert_eq!(lines("a\nb\nc"), strings(&["a", "b", "c"]));
    assert_eq!(lines("a\nb\n"), strings(&["a", "b"]));
    assert_eq!(lines(""), Vec::<String>::new());
    assert_eq!(lines("\n"), strings(&[""]));
    assert_eq!(lines("\n\n"), strings(&["", ""]));
    assert_eq!(lines("a"), strings(&["a"]));
}

#[test]
fn lines_takes_a_carriage_return_with_its_line_feed() {
    assert_eq!(lines("a\r\nb"), strings(&["a", "b"]));
    assert_eq!(lines("a\rb\n"), strings(&["a\rb"]));
    assert_eq!(lines("a\r"), strings(&["a\r"]));
    assert_eq!(lines("a\r\r\n"), strings(&["a\r"]));
    assert_eq!(lines("\r\n"), strings(&[""]));
    assert_eq!(lines("foo\nbar\n\r\nbaz\r"), strings(&["foo", "bar", "", "baz\r"]));
}

#[test]
fn lines_agrees_with_the_standard_library() {
    for s in ["", "\n", "a", "a\n", "a\r\n\r\nb", "\r", "\r\r\n\n", "x\ny\r\nz\r", "é\nü\r\n"] {
        let expected: Vec<String> = s.lines().map(str::to_string).collect();
        assert_eq!(lines(s), expected);
    }
}

#[test]
fn nonempty_lines_trims_and_drops_blank_lines() {
    assert_eq!(nonempty_lines("  wget \n\n\t\ncurl\r\n"), strings(&["wget", "curl"]));
    assert_eq!(nonempty_lines(" \n \n"), Vec::<String>::new());
    assert_eq!(nonempty_lines(""), Vec::<String>::new());
}

#[test]
fn first_nonempty_line_skips_blank_lines() {
    assert_eq!(first_nonempty_line("\n  \nError: no such keg\nmore"), Some("Error: no such keg".to_string()));
    assert_eq!(first_nonempty_line("  only  "), Some("only".to_string()));
    assert_eq!(first_nonempty_line(" \n\t\n"), None);
    assert_eq!(first_nonempty_line(""), None);
}

#[test]
fn is_blank_tells_white_space_from_text() {
    assert!(is_blank(""));
    assert!(is_blank(" \n\t"));
    assert!(!is_blank(" x "));
}

#[test]
fn same_text_compares_characters() {
    assert!(same_text("wget", "wget"));
    assert!(same_text("", ""));
    assert!(!same_text("wget", "wget2"));
    assert!(!same_text("wget", "wgeT"));
    assert!(same_text("café", "café"));
    assert!(!same_text("café", "cafe"));
}

#[test]
fn decimal_string_writes_numbers() {
    assert_eq!(decimal_string(0), "0");
    assert_eq!(decimal_string(7), "7");
    assert_eq!(decimal_string(10), "10");
    assert_eq!(decimal_string(12345), "12345");
    assert_eq!(decimal_string(1_000_000), "1000000");
    assert_eq!(decimal_string(usize::MAX), usize::MAX.to_string());
}

#[test]
fn joins_put_strings_in_a_row() {
    assert_eq!(join2("Theme: ", "Dark"), "Theme: Dark");
    assert_eq!(join3("Running ", "install", "..."), "Running install...");
    assert_eq!(join2("", ""), "");
}

#[test]
fn name_before_orders_by_bytes() {
    assert!(name_before("a", "b"));
    assert!(!name_before("b", "a"));
    assert!(!name_before("a", "a"));
    assert!(name_before("", "a"));
    assert!(!name_before("a", ""));
    assert!(name_before("ab", "abc"));
    assert!(name_before("Z", "a"));
    assert!(name_before("z", "é"));
    for (a, b) in [("wget", "curl"), ("curl", "wget"), ("é", "z"), ("", ""), ("a-b", "a_b")] {
        assert_eq!(name_before(a, b), a < b);
    }
}

#[test]
fn sort_names_sorts_as_strings_are_ordered() {
    assert_eq!(sort_names(strings(&["wget", "curl", "zsh", "bat"])), strings(&["bat", "curl", "wget", "zsh"]));
    assert_eq!(sort_names(strings(&[])), Vec::<String>::new());
    assert_eq!(sort_names(strings(&["b", "a", "b", "a"])), strings(&["a", "a", "b", "b"]));
    let mut expected = strings(&["node", "Node", "élan", "go", "git", "gh", "10"]);
    let sorted = sort_names(expected.clone());
    expected.sort();
    assert_eq!(sorted, expected);
}

#[test]
fn without_last_drops_one_character() {
    assert_eq!(brewery::text::without_last("wget"), "wge");
    assert_eq!(brewery::text::without_last("é"), "");
    assert_eq!(brewery::text::without_last("日本"), "日");
    assert_eq!(brewery::text::without_last(""), "");
}
