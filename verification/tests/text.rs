use meshstack::args::{option_of, switch_of};
use meshstack::discovery::comes_before;
use meshstack::text::{
    contains_text, copy_opt, find_entry, join, numeral, occurs_in, push_all, same_text, space, trim,
};

fn strings(list: &[&str]) -> Vec<String> {
    list.iter().map(|s| s.to_string()).collect()
}

#[test]
fn same_text_compares_whole_texts() {
    assert!(same_text("", ""));
    assert!(same_text("dev", "dev"));
    assert!(!same_text("dev", "dex"));
    assert!(!same_text("dev", "de"));
    assert!(!same_text("de", "dev"));
    assert!(same_text("é\u{1F680}", "é\u{1F680}"));
    assert!(!same_text("é", "e"));
}

#[test]
fn join_puts_the_separator_between_neighbours() {
    assert_eq!(join(&strings(&[]), ", "), "");
    assert_eq!(join(&strings(&["a"]), ", "), "a");
    assert_eq!(join(&strings(&["a", "b", "c"]), ", "), "a, b, c");
    assert_eq!(join(&strings(&["", ""]), "-"), "-");
    assert_eq!(join(&strings(&["a", "b"]), ""), "ab");
}

#[test]
fn trim_drops_white_space_at_both_ends_only() {
    assert_eq!(trim(""), "");
    assert_eq!(trim("  \t\n"), "");
    assert_eq!(trim("a"), "a");
    assert_eq!(trim(" a b "), "a b");
    assert_eq!(trim("\u{a0}x\u{3000}\u{2028}"), "x");
    assert_eq!(trim("\u{200b}x"), "\u{200b}x");
    for s in ["install ", " é ", "\r\nplan\u{85}", "x \u{1680} y"] {
        assert_eq!(trim(s), s.trim());
    }
}

#[test]
fn white_space_is_what_the_standard_library_says() {
    for code in 0u32..0x3100 {
        if let Some(c) = char::from_u32(code) {
            assert_eq!(space(c), c.is_whitespace(), "U+{:04X}", code);
        }
    }
}

#[test]
fn occurs_in_finds_a_text_anywhere() {
    assert!(occurs_in("kind-dev\nother\n", "other"));
    assert!(occurs_in("abc", ""));
    assert!(occurs_in("", ""));
    assert!(occurs_in("abc", "abc"));
    assert!(occurs_in("xxabcxx", "abc"));
    assert!(occurs_in("aab", "ab"));
    assert!(!occurs_in("abc", "abcd"));
    assert!(!occurs_in("", "a"));
    assert!(!occurs_in("ab-c", "abc"));
    assert!(occurs_in("clusteré", "é"));
    for (hay, needle) in [("meshstack-dev", "dev"), ("[{\"name\":\"c1\"}]", "c1"), ("aaa", "aaaa"), ("abab", "bab")] {
        assert_eq!(occurs_in(hay, needle), hay.contains(needle));
    }
}

#[test]
fn numerals_are_decimal() {
    assert_eq!(numeral(0), "0");
    assert_eq!(numeral(7), "7");
    assert_eq!(numeral(10), "10");
    assert_eq!(numeral(905), "905");
    assert_eq!(numeral(1234567890), "1234567890");
    assert_eq!(numeral(usize::MAX), usize::MAX.to_string());
}

#[test]
fn lookups_in_lists() {
    let items = strings(&["dev", "prod"]);
    assert!(contains_text(&items, "prod"));
    assert!(!contains_text(&items, "pro"));
    assert!(!contains_text(&vec![], ""));
    let entries = vec![("a".to_string(), "1".to_string()), ("b".to_string(), "2".to_string()), ("a".to_string(), "3".to_string())];
    assert_eq!(find_entry(&entries, "a"), Some("1".to_string()));
    assert_eq!(find_entry(&entries, "b"), Some("2".to_string()));
    assert_eq!(find_entry(&entries, "c"), None);
    assert_eq!(copy_opt(&Some("x".to_string())), Some("x".to_string()));
    assert_eq!(copy_opt(&None), None);
    let mut out = strings(&["1"]);
    push_all(&mut out, strings(&["2", "3"]));
    assert_eq!(out, vec!["1", "2", "3"]);
}

#[test]
fn names_are_compared_as_the_standard_library_compares_strings() {
    let samples = ["", "a", "A", "ab", "b", "api", "api-gateway", "é", "z", "\u{1F680}", "a\u{0}"];
    for a in samples {
        for b in samples {
            assert_eq!(comes_before(a, b), a <= b, "{:?} vs {:?}", a, b);
        }
    }
}

#[test]
fn options_take_the_argument_behind_them() {
    let takers = strings(&["--service", "-s", "--env"]);
    let wanted = strings(&["--service", "-s"]);
    let read = |list: &[&str]| option_of(&strings(list), &takers, &wanted);
    assert_eq!(read(&[]), None);
    assert_eq!(read(&["--service", "api"]), Some("api".to_string()));
    assert_eq!(read(&["-s", "api", "--service", "web"]), Some("web".to_string()));
    assert_eq!(read(&["--service"]), None);
    assert_eq!(read(&["--env", "--service", "api"]), None);
    assert_eq!(read(&["--env", "prod", "--service", "api"]), Some("api".to_string()));
    assert_eq!(read(&["--service", "--service"]), Some("--service".to_string()));
    assert_eq!(read(&["x", "-s", "-s", "y"]), Some("-s".to_string()));
}

#[test]
fn switches_are_seen_unless_used_up_as_a_value() {
    let takers = strings(&["--service", "-s"]);
    let read = |list: &[&str]| switch_of(&strings(list), &takers, "--build");
    assert!(!read(&[]));
    assert!(read(&["--build"]));
    assert!(read(&["--service", "api", "--build"]));
    assert!(!read(&["--service", "--build"]));
    assert!(read(&["--service", "--build", "--build"]));
    assert!(read(&["--build", "--service"]));
    assert!(!read(&["--Build", "build"]));
}
