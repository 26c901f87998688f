//! Path computations over `/`-separated path strings: containment in a
//! directory, joining, prefix stripping, and swapping a file's extension for
//! the fixed `.html` output extension. Paths are modelled as plain strings
//! without a trailing separator.

use vstd::prelude::*;
use vstd::string::StrSliceExecFns;
use vstd::string::StringExecFns;
use crate::text::{starts_with_seq, starts_with_sub, str_eq};

verus! {

/// `p` lies inside the directory `d` (or is `d` itself): `p` equals `d` or
/// begins with `d` followed by a separator.
pub open spec fn path_in_dir(p: Seq<char>, d: Seq<char>) -> bool {
    p == d || starts_with_seq(p, d + "/"@)
}

/// `d` with `b` appended as a further path component.
pub open spec fn join_seq(a: Seq<char>, b: Seq<char>) -> Seq<char> {
    if a.len() == 0 {
        b
    } else if a[a.len() - 1] == '/' {
        a + b
    } else {
        a + "/"@ + b
    }
}

/// `p` relative to the directory `root`; meaningful only when
/// `path_in_dir(p, root)` holds.
pub open spec fn strip_prefix_seq(p: Seq<char>, root: Seq<char>) -> Seq<char> {
    if p == root {
        Seq::<char>::empty()
    } else {
        p.skip(root.len() as int + 1)
    }
}

/// Index of the last occurrence of `c` in `s`, or `-1` if `c` is absent.
pub open spec fn last_index_of(s: Seq<char>, c: char) -> int
    decreases s.len(),
{
    if s.len() == 0 {
        -1
    } else if s[s.len() - 1] == c {
        s.len() - 1
    } else {
        last_index_of(s.drop_last(), c)
    }
}

/// `p` with its extension replaced by `.html`: if the final path component
/// holds a `.` after its first character, everything from the last such `.`
/// on is dropped; then `.html` is appended.
pub open spec fn html_ext_seq(p: Seq<char>) -> Seq<char> {
    let slash = last_index_of(p, '/');
    let dot = last_index_of(p, '.');
    if dot > slash + 1 {
        p.subrange(0, dot) + ".html"@
    } else {
        p + ".html"@
    }
}

/// The output path mirroring `source`: `source` relative to `root`, re-rooted
/// under `out_dir`, with the extension swapped for `.html`.
pub open spec fn output_path_seq(source: Seq<char>, root: Seq<char>, out_dir: Seq<char>) -> Seq<
    char,
> {
    html_ext_seq(join_seq(out_dir, strip_prefix_seq(source, root)))
}

/// Containment test: is `p` equal to `d` or below it?
pub fn is_under(p: &str, d: &str) -> (r: bool)
    ensures
        r == path_in_dir(p@, d@),
{
    if str_eq(p, d) {
        return true;
    }
    let sep = d.to_owned().concat("/");
    starts_with_sub(p, sep.as_str())
}

/// Joins a directory and a relative path with a separator.
pub fn join_path(a: &str, b: &str) -> (r: String)
    ensures
        r@ == join_seq(a@, b@),
{
    let alen = a.unicode_len();
    if alen == 0 {
        return b.to_owned();
    }
    let last = a.get_char(alen - 1);
    if last == '/' {
        let r = a.to_owned().concat(b);
        proof {
            assert(r@ =~= join_seq(a@, b@));
        }
        r
    } else {
        let r = a.to_owned().concat("/").concat(b);
        proof {
            assert(r@ =~= join_seq(a@, b@));
        }
        r
    }
}

/// Strips the directory `root` from the front of `p`; `None` when `p` does
/// not lie under `root`.
pub fn strip_prefix(p: &str, root: &str) -> (r: Option<String>)
    ensures
        match r {
            Some(rest) => path_in_dir(p@, root@) && rest@ == strip_prefix_seq(p@, root@),
            None => !path_in_dir(p@, root@),
        },
{
    if str_eq(p, root) {
        return Some(String::new());
    }
    let sep = root.to_owned().concat("/");
    if starts_with_sub(p, sep.as_str()) {
        let plen = p.unicode_len();
        proof {
            reveal_strlit("/");
        }
        let cut = root.unicode_len() + 1;
        let rest = p.substring_char(cut, plen);
        proof {
            assert(rest@ =~= strip_prefix_seq(p@, root@));
        }
        Some(rest.to_owned())
    } else {
        None
    }
}

/// Index of the last occurrence of `c` in `s`, if any.
fn find_last(s: &str, c: char) -> (r: Option<usize>)
    ensures
        match r {
            Some(i) => i < s@.len() && i == last_index_of(s@, c),
            None => last_index_of(s@, c) == -1,
        },
{
    let slen = s.unicode_len();
    let mut i: usize = slen;
    proof {
        assert(s@.take(slen as int) =~= s@);
    }
    while i > 0
        invariant
            slen == s@.len(),
            i <= slen,
            last_index_of(s@, c) == last_index_of(s@.take(i as int), c),
        decreases i,
    {
        i -= 1;
        if s.get_char(i) == c {
            proof {
                let t = s@.take(i + 1);
                assert(t[t.len() - 1] == c);
                assert(last_index_of(s@, c) == i);
            }
            return Some(i);
        }
        proof {
            let t = s@.take(i + 1);
            assert(t[t.len() - 1] != c);
            assert(t.drop_last() =~= s@.take(i as int));
        }
    }
    proof {
        assert(s@.take(0) =~= Seq::<char>::empty());
    }
    None
}

/// Replaces `p`'s extension with `.html` as `html_ext_seq` describes.
pub fn with_html_extension(p: &str) -> (r: String)
    ensures
        r@ == html_ext_seq(p@),
{
    let slash = find_last(p, '/');
    let dot = find_last(p, '.');
    let keep: bool = match (dot, slash) {
        (Some(d), Some(s)) => d == 0 || d - 1 <= s,
        (Some(d), None) => d == 0,
        (None, _) => true,
    };
    match (keep, dot) {
        (false, Some(d)) => {
            let stem = p.substring_char(0, d);
            let r = stem.to_owned().concat(".html");
            proof {
                assert(r@ =~= html_ext_seq(p@));
            }
            r
        },
        _ => {
            let r = p.to_owned().concat(".html");
            proof {
                assert(r@ =~= html_ext_seq(p@));
            }
            r
        },
    }
}

/// The mirrored output path for a source file: `source` is taken relative to
/// the project root, re-rooted under `out_dir`, and given the `.html`
/// extension. `None` exactly when `source` does not lie under `root`.
pub fn output_path(source: &str, root: &str, out_dir: &str) -> (r: Option<String>)
    ensures
        match r {
            Some(q) => path_in_dir(source@, root@) && q@ == output_path_seq(
                source@,
                root@,
                out_dir@,
            ),
            None => !path_in_dir(source@, root@),
        },
{
    match strip_prefix(source, root) {
        Some(rel) => {
            let joined = join_path(out_dir, rel.as_str());
            Some(with_html_extension(joined.as_str()))
        },
        None => None,
    }
}

/// Re-rooting mirrors the source tree: a file at `rel` below the project root
/// is mapped to `rel` below the output directory, with its extension swapped
/// for `.html`.
pub proof fn lemma_output_path_mirrors(rel: Seq<char>, root: Seq<char>, out_dir: Seq<char>)
    requires
        root.len() > 0,
        root[root.len() - 1] != '/',
    ensures
        path_in_dir(join_seq(root, rel), root),
        output_path_seq(join_seq(root, rel), root, out_dir) == html_ext_seq(
            join_seq(out_dir, rel),
        ),
{
    reveal_strlit("/");
    let source = join_seq(root, rel);
    assert(source =~= root + "/"@ + rel);
    assert(source.subrange(0, (root + "/"@).len() as int) =~= root + "/"@);
    assert(starts_with_seq(source, root + "/"@));
    if source == root {
        assert(source.len() == root.len() + 1 + rel.len());
        assert(false);
    }
    assert(strip_prefix_seq(source, root) =~= rel);
}

} // verus!
