//! The parsed-document model: a document is its ordered keyword lines plus
//! its content nodes in arena order. Keyword-driven metadata (the assigned
//! template, the title) is resolved here, last assignment winning.

use vstd::prelude::*;
use crate::text::str_eq;

verus! {

/// One keyword line of a source document: a key and its value, verbatim.
pub struct Keyword {
    pub key: String,
    pub value: String,
}

/// A parsed source document: its keyword lines in document order and its
/// content nodes in arena order, each node carried in serialized form.
pub struct Document {
    pub keywords: Vec<Keyword>,
    pub elements: Vec<String>,
}

/// The (key, value) views of a keyword sequence.
pub open spec fn keyword_views(kws: Seq<Keyword>) -> Seq<(Seq<char>, Seq<char>)> {
    kws.map_values(|k: Keyword| (k.key@, k.value@))
}

/// The character views of a node sequence.
pub open spec fn element_views(els: Seq<String>) -> Seq<Seq<char>> {
    els.map_values(|e: String| e@)
}

impl Document {
    /// The document's keywords, as (key, value) character sequences.
    pub open spec fn keywords_view(&self) -> Seq<(Seq<char>, Seq<char>)> {
        keyword_views(self.keywords@)
    }

    /// The document's nodes, as character sequences.
    pub open spec fn elements_view(&self) -> Seq<Seq<char>> {
        element_views(self.elements@)
    }
}

/// The value of the last keyword whose key equals `key`, or the empty string
/// when no keyword carries that key.
pub open spec fn last_value_for(kws: Seq<(Seq<char>, Seq<char>)>, key: Seq<char>) -> Seq<char>
    decreases kws.len(),
{
    if kws.len() == 0 {
        Seq::<char>::empty()
    } else if kws.last().0 == key {
        kws.last().1
    } else {
        last_value_for(kws.drop_last(), key)
    }
}

/// The template name a keyword list assigns: the last `WHITMAN_TEMPLATE`
/// value, or the empty string.
pub open spec fn template_name_in(kws: Seq<(Seq<char>, Seq<char>)>) -> Seq<char> {
    last_value_for(kws, "WHITMAN_TEMPLATE"@)
}

/// The title a keyword list assigns: the last `TITLE` value, or the empty
/// string.
pub open spec fn title_in(kws: Seq<(Seq<char>, Seq<char>)>) -> Seq<char> {
    last_value_for(kws, "TITLE"@)
}

/// The keyword lines that parsing a raw text yields, in document order.
pub uninterp spec fn org_keywords_of(raw: Seq<char>) -> Seq<(Seq<char>, Seq<char>)>;

/// The serialized content nodes that parsing a raw text yields, in arena
/// order.
pub uninterp spec fn org_elements_of(raw: Seq<char>) -> Seq<Seq<char>>;

/// The template name carried by a raw document text.
pub open spec fn doc_template_name(raw: Seq<char>) -> Seq<char> {
    template_name_in(org_keywords_of(raw))
}

/// Relies on `orgize::Org::parse_string` and its accessors `keywords` and
/// `arena`: the parse depends on the raw text alone; `keywords` yields the
/// document's keyword lines in document order, and `arena` its content nodes
/// in arena order, serialized one by one through `serde_json::to_string`.
#[verifier::external_body]
pub(crate) fn parse_document(raw: String) -> (d: Document)
    ensures
        d.keywords_view() == org_keywords_of(raw@),
        d.elements_view() == org_elements_of(raw@),
{
    let org = orgize::Org::parse_string(raw);
    let keywords = org
        .keywords()
        .map(|k| Keyword { key: k.key.to_string(), value: k.value.to_string() })
        .collect();
    let elements = org
        .arena()
        .iter()
        .map(|n| serde_json::to_string(n.get()).unwrap_or_default())
        .collect();
    Document { keywords, elements }
}

/// Scans the keywords in order and returns the value of the last one whose
/// key equals `key`; the empty string when none does.
pub fn last_keyword_value(kws: &Vec<Keyword>, key: &str) -> (r: String)
    ensures
        r@ == last_value_for(keyword_views(kws@), key@),
{
    let mut current = String::new();
    let mut i: usize = 0;
    proof {
        assert(keyword_views(kws@.take(0)) =~= keyword_views(kws@).take(0));
        assert(keyword_views(kws@).take(0) =~= Seq::<(Seq<char>, Seq<char>)>::empty());
    }
    while i < kws.len()
        invariant
            i <= kws@.len(),
            current@ == last_value_for(keyword_views(kws@).take(i as int), key@),
        decreases kws@.len() - i,
    {
        let ghost prev = keyword_views(kws@).take(i as int);
        let ghost next = keyword_views(kws@).take(i + 1);
        proof {
            assert(next.drop_last() =~= prev);
            assert(next.last() == (kws@[i as int].key@, kws@[i as int].value@));
        }
        if str_eq(kws[i].key.as_str(), key) {
            current = kws[i].value.clone();
        }
        i += 1;
    }
    proof {
        assert(keyword_views(kws@).take(kws@.len() as int) =~= keyword_views(kws@));
    }
    current
}

/// The template name assigned by a document's keywords.
pub fn template_name_of(d: &Document) -> (r: String)
    ensures
        r@ == template_name_in(d.keywords_view()),
{
    last_keyword_value(&d.keywords, "WHITMAN_TEMPLATE")
}

/// The title assigned by a document's keywords.
pub fn title_of(d: &Document) -> (r: String)
    ensures
        r@ == title_in(d.keywords_view()),
{
    last_keyword_value(&d.keywords, "TITLE")
}

/// A keyword list that never assigns `key` resolves to the empty string.
pub proof fn lemma_absent_key_yields_empty(kws: Seq<(Seq<char>, Seq<char>)>, key: Seq<char>)
    requires
        forall|i: int| 0 <= i < kws.len() ==> kws[i].0 != key,
    ensures
        last_value_for(kws, key) == Seq::<char>::empty(),
    decreases kws.len(),
{
    if kws.len() > 0 {
        lemma_absent_key_yields_empty(kws.drop_last(), key);
    }
}

/// Of several assignments to the same key, the last one in document order
/// decides the value.
pub proof fn lemma_last_assignment_wins(
    kws: Seq<(Seq<char>, Seq<char>)>,
    key: Seq<char>,
    i: int,
)
    requires
        0 <= i < kws.len(),
        kws[i].0 == key,
        forall|j: int| i < j < kws.len() ==> kws[j].0 != key,
    ensures
        last_value_for(kws, key) == kws[i].1,
    decreases kws.len(),
{
    if i < kws.len() - 1 {
        lemma_last_assignment_wins(kws.drop_last(), key, i);
    }
}

} // verus!
