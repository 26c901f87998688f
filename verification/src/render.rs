//! The render-side computations: the `fileHref` helper that templates call to
//! turn a cross-document reference into an output link, and the optional
//! minification of a rendered page before it is written.

use vstd::prelude::*;
use vstd::string::StrSliceExecFns;
use vstd::string::StringExecFns;
use crate::state::StateError;
use crate::text::{ends_with_seq, ends_with_sub, starts_with_seq, starts_with_sub};

verus! {

/// The output link for an internal cross-reference `file:./X.org`: the
/// leading `file:./` prefix is stripped once, the trailing `.org` extension
/// is swapped for `.html`, and everything between — path separators included
/// — is untouched. A reference without the prefix or without the extension
/// keeps the part it lacks unchanged.
pub open spec fn file_href_seq(s: Seq<char>) -> Seq<char> {
    let stripped = if starts_with_seq(s, "file:./"@) {
        s.skip("file:./"@.len() as int)
    } else {
        s
    };
    if ends_with_seq(stripped, ".org"@) {
        stripped.take(stripped.len() - ".org"@.len()) + ".html"@
    } else {
        stripped
    }
}

/// Rewrites an internal cross-reference of the form `file:./X.org` into the
/// output link `X.html`: exactly the leading prefix is stripped and the
/// trailing extension swapped, path separators left alone.
pub fn file_href(reference: &str) -> (r: String)
    ensures
        r@ == file_href_seq(reference@),
{
    let slen = reference.unicode_len();
    let stripped: String = if starts_with_sub(reference, "file:./") {
        let plen = "file:./".unicode_len();
        let rest = reference.substring_char(plen, slen);
        proof {
            assert(rest@ =~= reference@.skip("file:./"@.len() as int));
        }
        rest.to_owned()
    } else {
        reference.to_owned()
    };
    let stlen = stripped.as_str().unicode_len();
    if ends_with_sub(stripped.as_str(), ".org") {
        let elen = ".org".unicode_len();
        let base = stripped.as_str().substring_char(0, stlen - elen);
        proof {
            assert(base@ =~= stripped@.take(stripped@.len() - ".org"@.len()));
        }
        base.to_owned().concat(".html")
    } else {
        stripped
    }
}

/// What minifying an HTML text yields; the result depends on the text alone.
pub uninterp spec fn minified_of(html: Seq<char>) -> Seq<char>;

/// Whether minifying an HTML text fails; like the result, failure depends on
/// the text alone.
pub uninterp spec fn minify_fails(html: Seq<char>) -> bool;

/// Relies on `html_minifier::HTMLMinifier`: `digest` folds the whole text
/// into a fresh minifier with default options — a deterministic state machine
/// over the digested text — and `get_html` returns the minified bytes.
/// Failure (a minifier error, or minified bytes that are not UTF-8) is as
/// much a function of the text alone as the result is.
#[verifier::external_body]
fn minify_html(html: &str) -> (r: Result<String, StateError>)
    ensures
        match r {
            Ok(m) => !minify_fails(html@) && m@ == minified_of(html@),
            Err(_) => minify_fails(html@),
        },
{
    let mut minifier = html_minifier::HTMLMinifier::new();
    if minifier.digest(html).is_err() {
        return Err(StateError);
    }
    match std::string::String::from_utf8(minifier.get_html().to_vec()) {
        Ok(m) => Ok(m),
        Err(_) => Err(StateError),
    }
}

/// The final text to write for a rendered page: the page itself when
/// minification is off, its minified form when it is on. Turning the toggle
/// off never alters the text, and the write fails exactly when minification
/// is on and the minifier fails on the page.
pub fn finalize_html(rendered: String, minify: bool) -> (r: Result<String, StateError>)
    ensures
        match r {
            Ok(m) => {
                &&& !minify ==> m@ == rendered@
                &&& minify ==> !minify_fails(rendered@) && m@ == minified_of(rendered@)
            },
            Err(_) => minify && minify_fails(rendered@),
        },
{
    if minify {
        minify_html(rendered.as_str())
    } else {
        Ok(rendered)
    }
}

/// The fixed allow-list of command actions holds exactly `generate`.
pub fn is_valid_action(action: &str) -> (r: bool)
    ensures
        r == (action@ == "generate"@),
{
    crate::text::str_eq(action, "generate")
}

/// The fixed base name of the marker file that identifies a project root.
pub fn config_file_name() -> (r: String)
    ensures
        r@ == "whitman.toml"@,
{
    "whitman.toml".to_owned()
}

} // verus!
