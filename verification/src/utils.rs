//! The tree walker's decision logic. The walk itself (directory recursion and
//! file reading) happens outside the library; what it yields is a list of
//! `WalkerFile` entries, and this module decides which of them a substring
//! filter keeps.

use vstd::prelude::*;
use crate::text::{contains_seq, contains_sub};

verus! {

/// One file met during a walk: its base name, its full path, and its raw
/// content.
pub struct WalkerFile {
    pub file_name: String,
    pub path: String,
    pub raw: String,
}

/// The view of an optional filter string.
pub open spec fn filter_view(pat: Option<String>) -> Option<Seq<char>> {
    match pat {
        Some(p) => Some(p@),
        None => None,
    }
}

/// A file passes the filter when no filter is given, or when its name
/// contains the filter as a substring (containment, not suffix: a name
/// `foo.org.bak` passes the filter `.org`).
pub open spec fn file_matches(f: WalkerFile, pat: Option<Seq<char>>) -> bool {
    match pat {
        None => true,
        Some(p) => contains_seq(f.file_name@, p),
    }
}

/// The subsequence of `files` that passes the filter, in walk order.
pub open spec fn filtered_files(files: Seq<WalkerFile>, pat: Option<Seq<char>>) -> Seq<WalkerFile>
    decreases files.len(),
{
    if files.len() == 0 {
        Seq::<WalkerFile>::empty()
    } else {
        let rest = filtered_files(files.skip(1), pat);
        if file_matches(files[0], pat) {
            seq![files[0]] + rest
        } else {
            rest
        }
    }
}

/// Keeps the files whose name contains the filter substring; all of them when
/// no filter is given.
pub fn filter_files(files: &Vec<WalkerFile>, pat: &Option<String>) -> (r: Vec<WalkerFile>)
    ensures
        r@ == filtered_files(files@, filter_view(*pat)),
{
    let ghost patv = filter_view(*pat);
    let mut out: Vec<WalkerFile> = Vec::new();
    proof {
        assert(files@.skip(0) =~= files@);
        assert(out@ + filtered_files(files@, patv) =~= filtered_files(files@, patv));
    }
    let mut i: usize = 0;
    while i < files.len()
        invariant
            i <= files@.len(),
            patv == filter_view(*pat),
            filtered_files(files@, patv) =~= out@ + filtered_files(files@.skip(i as int), patv),
        decreases files@.len() - i,
    {
        let ghost tail = files@.skip(i as int);
        proof {
            assert(tail[0] == files@[i as int]);
            assert(tail.skip(1) =~= files@.skip(i + 1));
        }
        let keep: bool;
        if pat.is_some() {
            let p: &String = pat.as_ref().unwrap();
            keep = contains_sub(files[i].file_name.as_str(), p.as_str());
            proof {
                assert(patv == Some(p@));
            }
        } else {
            keep = true;
            proof {
                assert(patv is None);
            }
        }
        proof {
            assert(keep == file_matches(tail[0], patv));
            if !keep {
                assert(filtered_files(tail, patv) == filtered_files(files@.skip(i + 1), patv));
            }
        }
        if keep {
            let ghost prev = out@;
            let copy = WalkerFile {
                file_name: files[i].file_name.clone(),
                path: files[i].path.clone(),
                raw: files[i].raw.clone(),
            };
            proof {
                assert(copy == files@[i as int]);
            }
            out.push(copy);
            proof {
                assert(prev + (seq![files@[i as int]] + filtered_files(files@.skip(i + 1), patv))
                    =~= out@ + filtered_files(files@.skip(i + 1), patv));
            }
        }
        i += 1;
    }
    proof {
        assert(files@.skip(files@.len() as int) =~= Seq::<WalkerFile>::empty());
        assert(out@ + Seq::<WalkerFile>::empty() =~= out@);
    }
    out
}

} // verus!
