use whitman::paths::{is_under, join_path, output_path, strip_prefix, with_html_extension};

#[test]
fn output_path_mirrors_source_tree() {
    assert_eq!(
        output_path("/proj/a/b.org", "/proj", "/proj/output"),
        Some(String::from("/proj/output/a/b.html"))
    );
}

#[test]
fn output_path_swaps_extension_at_root() {
    assert_eq!(
        output_path("/proj/a.org", "/proj", "/proj/output"),
        Some(String::from("/proj/output/a.html"))
    );
}

#[test]
fn output_path_refuses_source_outside_root() {
    assert_eq!(output_path("/elsewhere/a.org", "/proj", "/proj/output"), None);
}

#[test]
fn join_inserts_single_separator() {
    assert_eq!(join_path("/proj", "output"), "/proj/output");
    assert_eq!(join_path("/proj/", "output"), "/proj/output");
    assert_eq!(join_path("", "output"), "output");
}

#[test]
fn strip_prefix_yields_relative_path() {
    assert_eq!(strip_prefix("/proj/a/b.org", "/proj"), Some(String::from("a/b.org")));
    assert_eq!(strip_prefix("/proj", "/proj"), Some(String::new()));
    assert_eq!(strip_prefix("/projects/a.org", "/proj"), None);
}

#[test]
fn containment_is_component_aware() {
    assert!(is_under("/proj/output/a.org", "/proj/output"));
    assert!(is_under("/proj/output", "/proj/output"));
    assert!(!is_under("/proj/outputs/a.org", "/proj/output"));
    assert!(!is_under("/proj/a.org", "/proj/output"));
}

#[test]
fn extension_swap_follows_the_final_component() {
    assert_eq!(with_html_extension("a/b.org"), "a/b.html");
    assert_eq!(with_html_extension("a/b"), "a/b.html");
    assert_eq!(with_html_extension("a.b/c"), "a.b/c.html");
    assert_eq!(with_html_extension("a/.org"), "a/.org.html");
    assert_eq!(with_html_extension("a/b.tar.org"), "a/b.tar.html");
}
