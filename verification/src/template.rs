//! The template registry: files whose name carries the template-file marker
//! `.hbs` are registered under their base name, a later file silently
//! replacing an earlier one with the same name.

use vstd::prelude::*;
use vstd::hash_map::StringHashMap;
use crate::text::contains_seq;
use crate::utils::WalkerFile;

verus! {

/// One discovered template: its base file name (the registry key), its full
/// path, and a cache slot for rendered output, empty at discovery.
pub struct Template {
    pub file_name: String,
    pub path: String,
    pub output: Option<String>,
}

/// The registry mapping from a template's base file name to the template.
pub type TemplateMap = StringHashMap<Template>;

/// The template a walked file registers as.
pub open spec fn template_of(f: WalkerFile) -> Template {
    Template { file_name: f.file_name, path: f.path, output: None }
}

/// A file is registered as a template exactly when its name contains the
/// template-file marker.
pub open spec fn is_template_file(f: WalkerFile) -> bool {
    contains_seq(f.file_name@, ".hbs"@)
}

/// The registry after walking `files` in order, starting from `m`: each
/// template file is inserted under its name, a later insertion overwriting an
/// earlier one with the same name.
pub open spec fn register_templates(m: Map<Seq<char>, Template>, files: Seq<WalkerFile>) -> Map<
    Seq<char>,
    Template,
>
    decreases files.len(),
{
    if files.len() == 0 {
        m
    } else {
        let next = if is_template_file(files[0]) {
            m.insert(files[0].file_name@, template_of(files[0]))
        } else {
            m
        };
        register_templates(next, files.skip(1))
    }
}

/// Every name in a registry built by `register_templates` carries the
/// template-file marker, provided the starting registry's names all do.
pub proof fn lemma_registered_names_marked(m: Map<Seq<char>, Template>, files: Seq<WalkerFile>)
    requires
        forall|n: Seq<char>| m.contains_key(n) ==> contains_seq(n, ".hbs"@),
    ensures
        forall|n: Seq<char>|
            register_templates(m, files).contains_key(n) ==> contains_seq(n, ".hbs"@),
    decreases files.len(),
{
    if files.len() > 0 {
        if is_template_file(files[0]) {
            lemma_registered_names_marked(
                m.insert(files[0].file_name@, template_of(files[0])),
                files.skip(1),
            );
        } else {
            lemma_registered_names_marked(m, files.skip(1));
        }
    }
}

/// A document carrying no template assignment is render-incapable: the empty
/// string never names a registered template, so resolving it always fails.
pub proof fn lemma_empty_name_unresolvable(m: Map<Seq<char>, Template>, files: Seq<WalkerFile>)
    requires
        forall|n: Seq<char>| m.contains_key(n) ==> contains_seq(n, ".hbs"@),
    ensures
        !register_templates(m, files).contains_key(Seq::<char>::empty()),
{
    lemma_registered_names_marked(m, files);
    reveal_strlit(".hbs");
    assert(!contains_seq(Seq::<char>::empty(), ".hbs"@)) by {
        assert(forall|i: int| !crate::text::match_at(Seq::<char>::empty(), ".hbs"@, i));
    }
}

/// A name that no walked template file carries keeps its prior binding.
pub proof fn lemma_register_preserves_unrelated(
    m: Map<Seq<char>, Template>,
    files: Seq<WalkerFile>,
    name: Seq<char>,
)
    requires
        forall|j: int|
            0 <= j < files.len() ==> (!is_template_file(#[trigger] files[j]) || files[j].file_name@
                != name),
    ensures
        register_templates(m, files).contains_key(name) == m.contains_key(name),
        m.contains_key(name) ==> register_templates(m, files)[name] == m[name],
    decreases files.len(),
{
    if files.len() > 0 {
        let next = if is_template_file(files[0]) {
            m.insert(files[0].file_name@, template_of(files[0]))
        } else {
            m
        };
        assert(forall|j: int|
            0 <= j < files.skip(1).len() ==> (!is_template_file(#[trigger] files.skip(1)[j])
                || files.skip(1)[j].file_name@ != name)) by {
            assert(forall|j: int|
                0 <= j < files.skip(1).len() ==> #[trigger] files.skip(1)[j] == files[j + 1]);
        }
        lemma_register_preserves_unrelated(next, files.skip(1), name);
    }
}

/// A name some walked template file carries resolves to the template of the
/// last such file — the registry retains exactly the later-discovered one.
pub proof fn lemma_register_resolves_last(
    m: Map<Seq<char>, Template>,
    files: Seq<WalkerFile>,
    i: int,
)
    requires
        0 <= i < files.len(),
        is_template_file(files[i]),
        forall|j: int|
            i < j < files.len() ==> (!is_template_file(#[trigger] files[j]) || files[j].file_name@
                != files[i].file_name@),
    ensures
        register_templates(m, files).contains_key(files[i].file_name@),
        register_templates(m, files)[files[i].file_name@] == template_of(files[i]),
    decreases files.len(),
{
    let next = if is_template_file(files[0]) {
        m.insert(files[0].file_name@, template_of(files[0]))
    } else {
        m
    };
    assert(forall|j: int|
        0 <= j < files.skip(1).len() ==> #[trigger] files.skip(1)[j] == files[j + 1]);
    if i == 0 {
        lemma_register_preserves_unrelated(next, files.skip(1), files[0].file_name@);
    } else {
        lemma_register_resolves_last(next, files.skip(1), i - 1);
    }
}

/// Two template files with the same base name collide: the registry retains
/// exactly the later-discovered one under that name — last write wins, no
/// merge.
pub proof fn lemma_name_collision_last_wins(
    m: Map<Seq<char>, Template>,
    f1: WalkerFile,
    f2: WalkerFile,
)
    requires
        f1.file_name@ == f2.file_name@,
        is_template_file(f1),
    ensures
        register_templates(m, seq![f1, f2]).contains_key(f2.file_name@),
        register_templates(m, seq![f1, f2])[f2.file_name@] == template_of(f2),
{
    let fs = seq![f1, f2];
    let m1 = m.insert(f1.file_name@, template_of(f1));
    let m2 = m1.insert(f2.file_name@, template_of(f2));
    assert(fs[0] == f1);
    assert(fs.skip(1) =~= seq![f2]);
    assert(register_templates(m, fs) == register_templates(m1, seq![f2]));
    assert(seq![f2][0] == f2);
    assert(is_template_file(f2));
    assert(seq![f2].skip(1) =~= Seq::<WalkerFile>::empty());
    assert(register_templates(m1, seq![f2]) == register_templates(
        m2,
        Seq::<WalkerFile>::empty(),
    ));
    assert(register_templates(m2, Seq::<WalkerFile>::empty()) == m2);
    assert(m2.contains_key(f2.file_name@));
    assert(m2[f2.file_name@] == template_of(f2));
}

} // verus!
