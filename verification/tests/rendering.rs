use whitman::render::{file_href, finalize_html};
use whitman::state::StateError;

#[test]
fn disabled_minification_never_alters_the_text() {
    let page = String::from("<html>  <body>   spaced   </body>  </html>");
    let out = finalize_html(page.clone(), false).unwrap();
    assert_eq!(out, page);
}

#[test]
fn enabled_minification_matches_the_minifier() {
    let page = String::from("<html>  <body>   spaced    out   </body>  </html>");
    let out = finalize_html(page.clone(), true).unwrap();
    assert_ne!(out, page);
    let mut minifier = html_minifier::HTMLMinifier::new();
    minifier.digest(page.as_str()).unwrap();
    let expected = String::from_utf8(minifier.get_html().to_vec()).unwrap();
    assert_eq!(out, expected);
}

#[test]
fn file_href_leaves_external_references_alone() {
    assert_eq!(file_href("https://example.com/page.html"), "https://example.com/page.html");
    assert_eq!(file_href("file:./nested/dir/page.org"), "nested/dir/page.html");
}

#[test]
fn state_error_carries_a_message() {
    let e = StateError;
    assert_eq!(e.message(), "The current whitman state is invalid");
}
