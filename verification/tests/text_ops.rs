use whitman::render::{config_file_name, file_href, is_valid_action};
use whitman::text::{contains_sub, ends_with_sub, starts_with_sub, str_eq};

#[test]
fn str_eq_agrees_with_equality() {
    assert!(str_eq("abc", "abc"));
    assert!(!str_eq("abc", "abd"));
    assert!(!str_eq("abc", "ab"));
    assert!(str_eq("", ""));
}

#[test]
fn contains_is_substring_containment() {
    assert!(contains_sub("foo.org.bak", ".org"));
    assert!(contains_sub("post.hbs", ".hbs"));
    assert!(!contains_sub("post.html", ".hbs"));
    assert!(contains_sub("anything", ""));
    assert!(!contains_sub("", "x"));
}

#[test]
fn starts_with_is_prefix_test() {
    assert!(starts_with_sub("output/a.html", "output/"));
    assert!(!starts_with_sub("out/a.html", "output/"));
    assert!(starts_with_sub("abc", ""));
}

#[test]
fn ends_with_is_suffix_test() {
    assert!(ends_with_sub("notes.org", ".org"));
    assert!(!ends_with_sub("notes.org.bak", ".org"));
    assert!(ends_with_sub("x", ""));
    assert!(!ends_with_sub("rg", ".org"));
}

#[test]
fn file_href_rewrites_plain_reference() {
    assert_eq!(file_href("file:./notes.org"), "notes.html");
}

#[test]
fn file_href_keeps_path_separators() {
    assert_eq!(file_href("file:./a/b.org"), "a/b.html");
}

#[test]
fn file_href_strips_once_and_swaps_the_trailing_extension() {
    assert_eq!(file_href("file:./x.org.org"), "x.org.html");
    assert_eq!(file_href("file:./file:./x.org"), "file:./x.html");
    assert_eq!(file_href("file:./x"), "x");
    assert_eq!(file_href("x.org"), "x.html");
}

#[test]
fn valid_actions_are_a_fixed_allow_list() {
    assert!(is_valid_action("generate"));
    assert!(!is_valid_action("deploy"));
    assert!(!is_valid_action(""));
}

#[test]
fn config_marker_file_is_fixed() {
    assert_eq!(config_file_name(), "whitman.toml");
}
