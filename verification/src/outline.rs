//! The outline: the render-ready view of a parsed document — its resolved
//! title, its keyword lines verbatim, and its content nodes flattened in
//! arena order.

use vstd::prelude::*;
use crate::document::{Document, Keyword, title_in};

verus! {

/// The flattened content nodes of a document, in arena order.
pub struct Tree {
    pub elements: Vec<String>,
}

/// The serializable view a template is rendered against: the resolved title
/// (the last `TITLE` keyword's value, or empty), every keyword verbatim, and
/// the flattened node tree.
pub struct Outline {
    pub title: String,
    pub keywords: Vec<Keyword>,
    pub tree: Tree,
}

/// Copies a keyword list, keeping every entry.
fn copy_keywords(kws: &Vec<Keyword>) -> (r: Vec<Keyword>)
    ensures
        r@ == kws@,
{
    let mut out: Vec<Keyword> = Vec::new();
    let mut i: usize = 0;
    while i < kws.len()
        invariant
            i <= kws@.len(),
            out@ =~= kws@.take(i as int),
        decreases kws@.len() - i,
    {
        let k = Keyword { key: kws[i].key.clone(), value: kws[i].value.clone() };
        proof {
            assert(k == kws@[i as int]);
        }
        out.push(k);
        i += 1;
    }
    proof {
        assert(kws@.take(kws@.len() as int) =~= kws@);
    }
    out
}

/// Copies a node list, keeping every entry.
fn copy_elements(els: &Vec<String>) -> (r: Vec<String>)
    ensures
        r@ == els@,
{
    let mut out: Vec<String> = Vec::new();
    let mut i: usize = 0;
    while i < els.len()
        invariant
            i <= els@.len(),
            out@ =~= els@.take(i as int),
        decreases els@.len() - i,
    {
        out.push(els[i].clone());
        i += 1;
    }
    proof {
        assert(els@.take(els@.len() as int) =~= els@);
    }
    out
}

impl Outline {
    /// Builds the outline of a parsed document: the title is the value of the
    /// last `TITLE` keyword (empty when none is present), the keywords are
    /// carried over verbatim, and the tree holds every content node in arena
    /// order.
    pub fn from_org(d: &Document) -> (o: Outline)
        ensures
            o.title@ == title_in(d.keywords_view()),
            o.keywords@ == d.keywords@,
            o.tree.elements@ == d.elements@,
    {
        let title = crate::document::title_of(d);
        let keywords = copy_keywords(&d.keywords);
        let elements = copy_elements(&d.elements);
        Outline { title, keywords, tree: Tree { elements } }
    }
}

} // verus!
