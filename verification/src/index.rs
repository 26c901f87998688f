//! The document index: one record per discovered source document, binding the
//! document's base name to its assigned template name and source path, next
//! to a mapping from base name to the parsed document itself. Files lying
//! inside the output directory are never indexed.

use vstd::prelude::*;
use vstd::hash_map::StringHashMap;
use crate::document::{doc_template_name, Document, title_in};
use crate::outline::Outline;
use crate::paths::path_in_dir;
use crate::state::StateError;
use crate::template::{Template, TemplateMap};
use crate::utils::WalkerFile;

verus! {

/// The binding of one source document: its base name, the template name its
/// keywords assign (empty when none does), and its source path.
pub struct IndexRecord {
    pub file_name: String,
    pub template_name: String,
    pub path: String,
}

/// The index: the records in discovery order, and the parsed documents keyed
/// by base name.
pub struct Index {
    pub records: Vec<IndexRecord>,
    pub org_map: StringHashMap<Document>,
}

/// The character views of one record: base name, template name, source path.
pub open spec fn record_view(r: IndexRecord) -> (Seq<char>, Seq<char>, Seq<char>) {
    (r.file_name@, r.template_name@, r.path@)
}

/// The views of a record list.
pub open spec fn record_views(rs: Seq<IndexRecord>) -> Seq<(Seq<char>, Seq<char>, Seq<char>)> {
    rs.map_values(|r: IndexRecord| record_view(r))
}

/// The view of one parsed document: its keyword pairs and its node texts.
pub open spec fn doc_view(d: Document) -> (Seq<(Seq<char>, Seq<char>)>, Seq<Seq<char>>) {
    (d.keywords_view(), d.elements_view())
}

/// The view of a document mapping: each document replaced by its view.
pub open spec fn doc_map_view(m: Map<Seq<char>, Document>) -> Map<
    Seq<char>,
    (Seq<(Seq<char>, Seq<char>)>, Seq<Seq<char>>),
> {
    m.map_values(|d: Document| doc_view(d))
}

/// The record views that indexing `files` in order produces: every file whose
/// path lies outside the output directory contributes one record — its name,
/// the template name parsed from its raw text, and its path.
pub open spec fn indexed_records(files: Seq<WalkerFile>, out_dir: Seq<char>) -> Seq<
    (Seq<char>, Seq<char>, Seq<char>),
>
    decreases files.len(),
{
    if files.len() == 0 {
        Seq::<(Seq<char>, Seq<char>, Seq<char>)>::empty()
    } else {
        let f = files[0];
        let rest = indexed_records(files.skip(1), out_dir);
        if path_in_dir(f.path@, out_dir) {
            rest
        } else {
            seq![(f.file_name@, doc_template_name(f.raw@), f.path@)] + rest
        }
    }
}

/// The document-map view that indexing `files` in order produces, starting
/// from `m`: every file outside the output directory is parsed and stored
/// under its base name, a later file overwriting an earlier one with the same
/// name.
pub open spec fn indexed_docs(
    m: Map<Seq<char>, (Seq<(Seq<char>, Seq<char>)>, Seq<Seq<char>>)>,
    files: Seq<WalkerFile>,
    out_dir: Seq<char>,
) -> Map<Seq<char>, (Seq<(Seq<char>, Seq<char>)>, Seq<Seq<char>>)>
    decreases files.len(),
{
    if files.len() == 0 {
        m
    } else {
        let f = files[0];
        let next = if path_in_dir(f.path@, out_dir) {
            m
        } else {
            m.insert(f.file_name@, (crate::document::org_keywords_of(f.raw@), crate::document::org_elements_of(f.raw@)))
        };
        indexed_docs(next, files.skip(1), out_dir)
    }
}

/// No record ever points into the output directory: a source file lying
/// there is excluded from the index, not re-indexed.
pub proof fn lemma_output_dir_excluded(files: Seq<WalkerFile>, out_dir: Seq<char>)
    ensures
        forall|j: int|
            0 <= j < indexed_records(files, out_dir).len() ==> !path_in_dir(
                #[trigger] indexed_records(files, out_dir)[j].2,
                out_dir,
            ),
    decreases files.len(),
{
    if files.len() > 0 {
        lemma_output_dir_excluded(files.skip(1), out_dir);
        let f = files[0];
        let rest = indexed_records(files.skip(1), out_dir);
        if !path_in_dir(f.path@, out_dir) {
            let head = seq![(f.file_name@, doc_template_name(f.raw@), f.path@)];
            assert(forall|j: int|
                0 <= j < (head + rest).len() ==> (head + rest)[j] == (if j == 0 {
                    head[0]
                } else {
                    rest[j - 1]
                }));
        }
    }
}

impl IndexRecord {
    /// Resolves this record's document in the document mapping and builds its
    /// outline; fails exactly when the name is absent.
    pub fn outline(&self, org_map: &StringHashMap<Document>) -> (r: Result<Outline, StateError>)
        ensures
            match r {
                Ok(o) => org_map@.contains_key(self.file_name@) && {
                    let d = org_map@[self.file_name@];
                    &&& o.title@ == title_in(d.keywords_view())
                    &&& o.keywords@ == d.keywords@
                    &&& o.tree.elements@ == d.elements@
                },
                Err(_) => !org_map@.contains_key(self.file_name@),
            },
    {
        match org_map.get(self.file_name.as_str()) {
            Some(d) => Ok(Outline::from_org(d)),
            None => Err(StateError {  }),
        }
    }

    /// Resolves this record's assigned template name in the registry; fails
    /// exactly when the name is absent — in particular always when the
    /// document carried no template assignment, since the empty string names
    /// no template file.
    pub fn template<'a>(&self, template_map: &'a TemplateMap) -> (r: Result<
        &'a Template,
        StateError,
    >)
        ensures
            match r {
                Ok(t) => template_map@.contains_key(self.template_name@) && *t == template_map@[self.template_name@],
                Err(_) => !template_map@.contains_key(self.template_name@),
            },
    {
        match template_map.get(self.template_name.as_str()) {
            Some(t) => Ok(t),
            None => Err(StateError {  }),
        }
    }
}

} // verus!
