//! The run state: project root, selected environment, configuration, template
//! registry and document index, with the steps that build the registry and
//! the index from walked files.

use vstd::prelude::*;
use vstd::hash_map::StringHashMap;
use crate::config::{Config, Env};
use crate::document::{parse_document, template_name_of, Document};
use crate::index::{doc_map_view, doc_view, indexed_docs, indexed_records, record_view, record_views, Index, IndexRecord};
use crate::paths::{is_under, join_path, join_seq};
use crate::template::{is_template_file, register_templates, template_of, Template, TemplateMap};
use crate::text::{contains_sub, str_eq};
use crate::utils::WalkerFile;

verus! {

/// The failure of a state operation: the configuration is missing or does not
/// know the selected environment, or a lookup failed.
#[derive(Debug, Clone)]
pub struct StateError;

impl StateError {
    /// A human-readable description of the failure.
    pub fn message(&self) -> (m: String)
        ensures
            m@ == "The current whitman state is invalid"@,
    {
        "The current whitman state is invalid".to_owned()
    }
}

/// The state of one run: the project root, the selected environment name, the
/// loaded configuration, and the registry and index that `init` fills.
pub struct State {
    pub dir: String,
    pub env: String,
    pub index: Index,
    pub config: Option<Config>,
    pub templates: TemplateMap,
}

/// The environment name a run selects: the process variable's value when one
/// is set, the default `local` otherwise.
pub fn select_environment(var: Option<String>) -> (r: String)
    ensures
        match var {
            Some(v) => r == v,
            None => r@ == "local"@,
        },
{
    if var.is_some() {
        var.unwrap()
    } else {
        "local".to_owned()
    }
}

/// `args[i]` is the first `--dir` flag among the arguments.
pub open spec fn first_dir_flag(args: Seq<Seq<char>>, i: int) -> bool {
    &&& 0 <= i < args.len()
    &&& args[i] == "--dir"@
    &&& forall|j: int| 0 <= j < i ==> args[j] != "--dir"@
}

/// The views of an argument list.
pub open spec fn arg_views(args: Seq<String>) -> Seq<Seq<char>> {
    args.map_values(|a: String| a@)
}

/// The project root selected by the arguments: the value following the first
/// `--dir` flag, if the flag is present and followed by anything.
pub fn dir_from_args(args: &Vec<String>) -> (r: Option<String>)
    ensures
        match r {
            Some(d) => exists|i: int|
                #[trigger] first_dir_flag(arg_views(args@), i) && i + 1 < args@.len() && d@
                    == arg_views(args@)[i + 1],
            None => forall|i: int|
                #[trigger] first_dir_flag(arg_views(args@), i) ==> i + 1 == args@.len(),
        },
{
    let ghost views = arg_views(args@);
    let mut i: usize = 0;
    while i < args.len()
        invariant
            views == arg_views(args@),
            i <= args@.len(),
            forall|j: int| 0 <= j < i ==> views[j] != "--dir"@,
        decreases args@.len() - i,
    {
        if str_eq(args[i].as_str(), "--dir") {
            proof {
                assert(first_dir_flag(views, i as int));
            }
            if i + 1 < args.len() {
                return Some(args[i + 1].clone());
            } else {
                proof {
                    assert(forall|k: int| first_dir_flag(views, k) ==> k == i as int);
                }
                return None;
            }
        }
        i += 1;
    }
    proof {
        assert(forall|k: int| !first_dir_flag(views, k));
    }
    None
}

impl State {
    /// Whether the configuration is present and knows the selected
    /// environment.
    pub open spec fn has_env(&self) -> bool {
        &&& self.config is Some
        &&& self.config->Some_0.environments@.contains_key(self.env@)
    }

    /// The selected environment's profile; meaningful only under `has_env`.
    pub open spec fn spec_env(&self) -> Env {
        self.config->Some_0.environments@[self.env@]
    }

    /// The template directory: the environment's name joined to the root.
    pub open spec fn spec_template_dir(&self) -> Seq<char> {
        join_seq(self.dir@, self.spec_env().template_dir@)
    }

    /// The assets directory: the environment's name joined to the root.
    pub open spec fn spec_assets_dir(&self) -> Seq<char> {
        join_seq(self.dir@, self.spec_env().assets_dir@)
    }

    /// The output directory: the environment's name joined to the root.
    pub open spec fn spec_output_dir(&self) -> Seq<char> {
        join_seq(self.dir@, self.spec_env().output_dir@)
    }

    /// A fresh state over a root, an environment name and a configuration,
    /// with an empty registry and an empty index.
    pub fn new(dir: String, env: String, config: Option<Config>) -> (s: State)
        ensures
            s.dir == dir,
            s.env == env,
            s.config == config,
            s.templates@ == Map::<Seq<char>, Template>::empty(),
            s.index.records@ == Seq::<IndexRecord>::empty(),
            s.index.org_map@ == Map::<Seq<char>, Document>::empty(),
    {
        State {
            env,
            dir,
            templates: StringHashMap::new(),
            config,
            index: Index { records: Vec::new(), org_map: StringHashMap::new() },
        }
    }

    /// The selected environment's profile; fails exactly when the
    /// configuration is absent or does not know the environment name.
    pub fn get_environment(&self) -> (r: Result<&Env, StateError>)
        ensures
            match r {
                Ok(e) => self.has_env() && *e == self.spec_env(),
                Err(_) => !self.has_env(),
            },
    {
        if self.config.is_none() {
            return Err(StateError);
        }
        let config: &Config = self.config.as_ref().unwrap();
        match config.environments.get(self.env.as_str()) {
            Some(e) => Ok(e),
            None => Err(StateError),
        }
    }

    /// The template directory under the project root.
    pub fn get_template_dir(&self) -> (r: Result<String, StateError>)
        ensures
            match r {
                Ok(p) => self.has_env() && p@ == self.spec_template_dir(),
                Err(_) => !self.has_env(),
            },
    {
        match self.get_environment() {
            Ok(e) => Ok(join_path(self.dir.as_str(), e.template_dir.as_str())),
            Err(e) => Err(e),
        }
    }

    /// The assets directory under the project root.
    pub fn get_assets_dir(&self) -> (r: Result<String, StateError>)
        ensures
            match r {
                Ok(p) => self.has_env() && p@ == self.spec_assets_dir(),
                Err(_) => !self.has_env(),
            },
    {
        match self.get_environment() {
            Ok(e) => Ok(join_path(self.dir.as_str(), e.assets_dir.as_str())),
            Err(e) => Err(e),
        }
    }

    /// The output directory under the project root.
    pub fn get_output_dir(&self) -> (r: Result<String, StateError>)
        ensures
            match r {
                Ok(p) => self.has_env() && p@ == self.spec_output_dir(),
                Err(_) => !self.has_env(),
            },
    {
        match self.get_environment() {
            Ok(e) => Ok(join_path(self.dir.as_str(), e.output_dir.as_str())),
            Err(e) => Err(e),
        }
    }

    /// Registers every template file among the walked entries, in walk order,
    /// a later file overwriting an earlier one with the same base name.
    pub fn generate_templates(&mut self, files: &Vec<WalkerFile>)
        ensures
            final(self).templates@ == register_templates(old(self).templates@, files@),
            final(self).dir == old(self).dir,
            final(self).env == old(self).env,
            final(self).config == old(self).config,
            final(self).index == old(self).index,
    {
        let ghost m0 = self.templates@;
        proof {
            assert(files@.skip(0) =~= files@);
        }
        let mut i: usize = 0;
        while i < files.len()
            invariant
                i <= files@.len(),
                register_templates(m0, files@) == register_templates(
                    self.templates@,
                    files@.skip(i as int),
                ),
                self.dir == old(self).dir,
                self.env == old(self).env,
                self.config == old(self).config,
                self.index == old(self).index,
            decreases files@.len() - i,
        {
            let ghost tail = files@.skip(i as int);
            proof {
                assert(tail[0] == files@[i as int]);
                assert(tail.skip(1) =~= files@.skip(i + 1));
            }
            if contains_sub(files[i].file_name.as_str(), ".hbs") {
                let t = Template {
                    path: files[i].path.clone(),
                    file_name: files[i].file_name.clone(),
                    output: None,
                };
                proof {
                    assert(t == template_of(files@[i as int]));
                    assert(is_template_file(files@[i as int]));
                }
                self.templates.insert(files[i].file_name.clone(), t);
            } else {
                proof {
                    assert(!is_template_file(files@[i as int]));
                }
            }
            i += 1;
        }
        proof {
            assert(files@.skip(files@.len() as int) =~= Seq::<WalkerFile>::empty());
        }
    }

    /// Builds the index from the walked source documents, in walk order: a
    /// file inside the output directory is excluded; every other file is
    /// parsed, recorded with the template name its keywords assign, and
    /// stored under its base name. Fails exactly when the environment is
    /// unknown, leaving the state unchanged.
    pub fn generate_index(&mut self, files: &Vec<WalkerFile>) -> (r: Result<(), StateError>)
        ensures
            match r {
                Ok(_) => {
                    &&& old(self).has_env()
                    &&& record_views(final(self).index.records@) == indexed_records(
                        files@,
                        old(self).spec_output_dir(),
                    )
                    &&& doc_map_view(final(self).index.org_map@) == indexed_docs(
                        Map::<Seq<char>, (Seq<(Seq<char>, Seq<char>)>, Seq<Seq<char>>)>::empty(),
                        files@,
                        old(self).spec_output_dir(),
                    )
                    &&& final(self).dir == old(self).dir
                    &&& final(self).env == old(self).env
                    &&& final(self).config == old(self).config
                    &&& final(self).templates == old(self).templates
                },
                Err(_) => !old(self).has_env() && *final(self) == *old(self),
            },
    {
        let output_dir = match self.get_output_dir() {
            Ok(d) => d,
            Err(e) => {
                return Err(e);
            },
        };
        let ghost outv = old(self).spec_output_dir();
        let mut org_map: StringHashMap<Document> = StringHashMap::new();
        let mut records: Vec<IndexRecord> = Vec::new();
        proof {
            assert(files@.skip(0) =~= files@);
            assert(record_views(records@) =~= Seq::<(Seq<char>, Seq<char>, Seq<char>)>::empty());
            assert(record_views(records@) + indexed_records(files@, outv) =~= indexed_records(
                files@,
                outv,
            ));
            assert(doc_map_view(org_map@) =~= Map::<
                Seq<char>,
                (Seq<(Seq<char>, Seq<char>)>, Seq<Seq<char>>),
            >::empty());
        }
        let mut i: usize = 0;
        while i < files.len()
            invariant
                i <= files@.len(),
                output_dir@ == outv,
                indexed_records(files@, outv) =~= record_views(records@) + indexed_records(
                    files@.skip(i as int),
                    outv,
                ),
                indexed_docs(
                    Map::<Seq<char>, (Seq<(Seq<char>, Seq<char>)>, Seq<Seq<char>>)>::empty(),
                    files@,
                    outv,
                ) == indexed_docs(doc_map_view(org_map@), files@.skip(i as int), outv),
            decreases files@.len() - i,
        {
            let ghost tail = files@.skip(i as int);
            proof {
                assert(tail[0] == files@[i as int]);
                assert(tail.skip(1) =~= files@.skip(i + 1));
            }
            if !is_under(files[i].path.as_str(), output_dir.as_str()) {
                let doc = parse_document(files[i].raw.clone());
                let template_name = template_name_of(&doc);
                let record = IndexRecord {
                    file_name: files[i].file_name.clone(),
                    template_name,
                    path: files[i].path.clone(),
                };
                let ghost prev_records = records@;
                let ghost prev_map = doc_map_view(org_map@);
                proof {
                    assert(record_view(record) == (
                        files@[i as int].file_name@,
                        crate::document::doc_template_name(files@[i as int].raw@),
                        files@[i as int].path@,
                    ));
                    assert(doc_view(doc) == (
                        crate::document::org_keywords_of(files@[i as int].raw@),
                        crate::document::org_elements_of(files@[i as int].raw@),
                    ));
                }
                org_map.insert(files[i].file_name.clone(), doc);
                records.push(record);
                proof {
                    assert(record_views(records@) =~= record_views(prev_records).push(
                        record_view(record),
                    ));
                    assert(record_views(prev_records) + (seq![record_view(record)]
                        + indexed_records(files@.skip(i + 1), outv)) =~= record_views(records@)
                        + indexed_records(files@.skip(i + 1), outv));
                    assert(doc_map_view(org_map@) =~= prev_map.insert(
                        files@[i as int].file_name@,
                        doc_view(doc),
                    ));
                }
            }
            i += 1;
        }
        proof {
            assert(files@.skip(files@.len() as int) =~= Seq::<WalkerFile>::empty());
            assert(record_views(records@) + Seq::<(Seq<char>, Seq<char>, Seq<char>)>::empty()
                =~= record_views(records@));
        }
        self.index.records = records;
        self.index.org_map = org_map;
        Ok(())
    }

    /// Fills the registry from the walked template files, then builds the
    /// index from the walked source documents. Fails exactly when the
    /// environment is unknown, leaving the state unchanged.
    pub fn init(&mut self, template_files: &Vec<WalkerFile>, doc_files: &Vec<WalkerFile>) -> (r:
        Result<(), StateError>)
        ensures
            match r {
                Ok(_) => {
                    &&& old(self).has_env()
                    &&& final(self).templates@ == register_templates(
                        old(self).templates@,
                        template_files@,
                    )
                    &&& record_views(final(self).index.records@) == indexed_records(
                        doc_files@,
                        old(self).spec_output_dir(),
                    )
                    &&& doc_map_view(final(self).index.org_map@) == indexed_docs(
                        Map::<Seq<char>, (Seq<(Seq<char>, Seq<char>)>, Seq<Seq<char>>)>::empty(),
                        doc_files@,
                        old(self).spec_output_dir(),
                    )
                    &&& final(self).dir == old(self).dir
                    &&& final(self).env == old(self).env
                    &&& final(self).config == old(self).config
                },
                Err(_) => !old(self).has_env() && *final(self) == *old(self),
            },
    {
        match self.get_template_dir() {
            Ok(_) => {},
            Err(e) => {
                return Err(e);
            },
        }
        self.generate_templates(template_files);
        self.generate_index(doc_files)
    }
}

/// Re-running the pipeline on unchanged input rebuilds identical state: two
/// fresh states initialized from the same walked files over the same output
/// directory hold the same registry, the same records and the same documents,
/// view for view — the build is a function of its input files alone.
pub proof fn lemma_rerun_identical(
    a: State,
    b: State,
    template_files: Seq<WalkerFile>,
    doc_files: Seq<WalkerFile>,
    out_dir: Seq<char>,
)
    requires
        a.templates@ == register_templates(Map::<Seq<char>, Template>::empty(), template_files),
        b.templates@ == register_templates(Map::<Seq<char>, Template>::empty(), template_files),
        record_views(a.index.records@) == indexed_records(doc_files, out_dir),
        record_views(b.index.records@) == indexed_records(doc_files, out_dir),
        doc_map_view(a.index.org_map@) == indexed_docs(
            Map::<Seq<char>, (Seq<(Seq<char>, Seq<char>)>, Seq<Seq<char>>)>::empty(),
            doc_files,
            out_dir,
        ),
        doc_map_view(b.index.org_map@) == indexed_docs(
            Map::<Seq<char>, (Seq<(Seq<char>, Seq<char>)>, Seq<Seq<char>>)>::empty(),
            doc_files,
            out_dir,
        ),
    ensures
        a.templates@ == b.templates@,
        record_views(a.index.records@) == record_views(b.index.records@),
        doc_map_view(a.index.org_map@) == doc_map_view(b.index.org_map@),
{
}

} // verus!
