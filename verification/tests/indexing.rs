use whitman::config::{Config, Env};
use whitman::document::last_keyword_value;
use whitman::document::Keyword;
use whitman::state::{dir_from_args, select_environment, State};
use whitman::utils::{filter_files, WalkerFile};

fn wf(file_name: &str, path: &str, raw: &str) -> WalkerFile {
    WalkerFile {
        file_name: String::from(file_name),
        path: String::from(path),
        raw: String::from(raw),
    }
}

fn kw(key: &str, value: &str) -> Keyword {
    Keyword { key: String::from(key), value: String::from(value) }
}

fn local_config() -> Config {
    let mut config = Config::new();
    config.add_environment(
        String::from("local"),
        Env {
            template_dir: String::from("templates"),
            output_dir: String::from("output"),
            assets_dir: String::from("assets"),
        },
    );
    config
}

fn fresh_state() -> State {
    State::new(String::from("/proj"), String::from("local"), Some(local_config()))
}

#[test]
fn last_keyword_assignment_wins() {
    let kws = vec![kw("WHITMAN_TEMPLATE", "first.hbs"), kw("TITLE", "t"), kw(
        "WHITMAN_TEMPLATE",
        "second.hbs",
    )];
    assert_eq!(last_keyword_value(&kws, "WHITMAN_TEMPLATE"), "second.hbs");
}

#[test]
fn absent_keyword_yields_empty_value() {
    let kws = vec![kw("TITLE", "t"), kw("AUTHOR", "a")];
    assert_eq!(last_keyword_value(&kws, "WHITMAN_TEMPLATE"), "");
}

#[test]
fn filter_keeps_names_containing_the_pattern() {
    let files = vec![
        wf("a.org", "/proj/a.org", ""),
        wf("b.txt", "/proj/b.txt", ""),
        wf("c.org.bak", "/proj/c.org.bak", ""),
    ];
    let kept = filter_files(&files, &Some(String::from(".org")));
    let names: Vec<&str> = kept.iter().map(|f| f.file_name.as_str()).collect();
    assert_eq!(names, vec!["a.org", "c.org.bak"]);
    let all = filter_files(&files, &None);
    assert_eq!(all.len(), 3);
}

#[test]
fn dir_flag_selects_the_following_argument() {
    let args = vec![
        String::from("whitman"),
        String::from("generate"),
        String::from("--dir"),
        String::from("/proj"),
    ];
    assert_eq!(dir_from_args(&args), Some(String::from("/proj")));
}

#[test]
fn missing_or_dangling_dir_flag_selects_nothing() {
    let none = vec![String::from("whitman"), String::from("generate")];
    assert_eq!(dir_from_args(&none), None);
    let dangling = vec![String::from("whitman"), String::from("--dir")];
    assert_eq!(dir_from_args(&dangling), None);
}

#[test]
fn unset_environment_variable_defaults_to_local() {
    assert_eq!(select_environment(None), "local");
    assert_eq!(select_environment(Some(String::from("production"))), "production");
}

#[test]
fn environment_lookup_resolves_directories() {
    let state = fresh_state();
    let env = state.get_environment().unwrap();
    assert_eq!(env.template_dir, "templates");
    assert_eq!(state.get_template_dir().unwrap(), "/proj/templates");
    assert_eq!(state.get_output_dir().unwrap(), "/proj/output");
    assert_eq!(state.get_assets_dir().unwrap(), "/proj/assets");
}

#[test]
fn unknown_environment_is_fatal() {
    let state = State::new(String::from("/proj"), String::from("staging"), Some(local_config()));
    assert!(state.get_environment().is_err());
    let bare = State::new(String::from("/proj"), String::from("local"), None);
    assert!(bare.get_environment().is_err());
    let mut bare = bare;
    assert!(bare.generate_index(&Vec::new()).is_err());
}

#[test]
fn registry_collision_retains_the_later_template() {
    let mut state = fresh_state();
    let files = vec![
        wf("post.hbs", "/proj/templates/post.hbs", "one"),
        wf("readme.md", "/proj/templates/readme.md", ""),
        wf("post.hbs", "/proj/templates/blog/post.hbs", "two"),
    ];
    state.generate_templates(&files);
    let record_holder = whitman::index::IndexRecord {
        file_name: String::from("x"),
        template_name: String::from("post.hbs"),
        path: String::from("/proj/x.org"),
    };
    let t = record_holder.template(&state.templates).unwrap();
    assert_eq!(t.path, "/proj/templates/blog/post.hbs");
    let miss = whitman::index::IndexRecord {
        file_name: String::from("x"),
        template_name: String::from("readme.md"),
        path: String::from("/proj/x.org"),
    };
    assert!(miss.template(&state.templates).is_err());
}

#[test]
fn index_binds_documents_to_their_last_assigned_template() {
    let mut state = fresh_state();
    let files = vec![wf(
        "a.org",
        "/proj/a.org",
        "#+TITLE: Hello\n#+WHITMAN_TEMPLATE: old.hbs\n#+WHITMAN_TEMPLATE: post.hbs\n\n* Heading\nBody text.\n",
    )];
    state.generate_index(&files).unwrap();
    assert_eq!(state.index.records.len(), 1);
    let record = &state.index.records[0];
    assert_eq!(record.file_name, "a.org");
    assert_eq!(record.template_name, "post.hbs");
    assert_eq!(record.path, "/proj/a.org");
}

#[test]
fn document_without_template_keyword_is_render_incapable() {
    let mut state = fresh_state();
    let files = vec![wf("a.org", "/proj/a.org", "#+TITLE: Hello\n\nBody.\n")];
    state.generate_index(&files).unwrap();
    let record = &state.index.records[0];
    assert_eq!(record.template_name, "");
    assert!(record.template(&state.templates).is_err());
}

#[test]
fn files_inside_the_output_directory_are_excluded() {
    let mut state = fresh_state();
    let files = vec![
        wf("a.org", "/proj/a.org", "#+WHITMAN_TEMPLATE: post.hbs\n"),
        wf("a.org", "/proj/output/a.org", "#+WHITMAN_TEMPLATE: post.hbs\n"),
        wf("b.org", "/proj/outputs/b.org", "#+WHITMAN_TEMPLATE: post.hbs\n"),
    ];
    state.generate_index(&files).unwrap();
    let paths: Vec<&str> = state.index.records.iter().map(|r| r.path.as_str()).collect();
    assert_eq!(paths, vec!["/proj/a.org", "/proj/outputs/b.org"]);
}

#[test]
fn outline_resolves_title_and_carries_keywords() {
    let mut state = fresh_state();
    let files = vec![wf(
        "a.org",
        "/proj/a.org",
        "#+TITLE: First\n#+TITLE: Hello\n#+WHITMAN_TEMPLATE: post.hbs\n\n* Heading\nBody text.\n",
    )];
    state.generate_index(&files).unwrap();
    let record = &state.index.records[0];
    let outline = record.outline(&state.index.org_map).unwrap();
    assert_eq!(outline.title, "Hello");
    let pairs: Vec<(&str, &str)> = outline
        .keywords
        .iter()
        .map(|k| (k.key.as_str(), k.value.as_str()))
        .collect();
    assert!(pairs.contains(&("TITLE", "Hello")));
    assert!(pairs.contains(&("WHITMAN_TEMPLATE", "post.hbs")));
    assert!(!outline.tree.elements.is_empty());
}

#[test]
fn missing_document_name_fails_outline_lookup() {
    let state = fresh_state();
    let record = whitman::index::IndexRecord {
        file_name: String::from("ghost.org"),
        template_name: String::from("post.hbs"),
        path: String::from("/proj/ghost.org"),
    };
    assert!(record.outline(&state.index.org_map).is_err());
}

#[test]
fn init_fills_registry_and_index_together() {
    let mut state = fresh_state();
    let templates = vec![wf("post.hbs", "/proj/templates/post.hbs", "{{title}}")];
    let docs = vec![wf(
        "a.org",
        "/proj/a.org",
        "#+TITLE: Hello\n#+WHITMAN_TEMPLATE: post.hbs\n\nBody.\n",
    )];
    state.init(&templates, &docs).unwrap();
    let record = &state.index.records[0];
    let t = record.template(&state.templates).unwrap();
    assert_eq!(t.file_name, "post.hbs");
    let outline = record.outline(&state.index.org_map).unwrap();
    assert_eq!(outline.title, "Hello");
    let target = whitman::paths::output_path(
        &record.path,
        "/proj",
        &state.get_output_dir().unwrap(),
    );
    assert_eq!(target, Some(String::from("/proj/output/a.html")));
}

#[test]
fn rebuilding_from_unchanged_input_is_identical() {
    let files = vec![
        wf("a.org", "/proj/a.org", "#+TITLE: Hello\n#+WHITMAN_TEMPLATE: post.hbs\nBody.\n"),
        wf("b.org", "/proj/b.org", "Body only.\n"),
    ];
    let templates = vec![wf("post.hbs", "/proj/templates/post.hbs", "{{title}}")];
    let mut first = fresh_state();
    first.init(&templates, &files).unwrap();
    let mut second = fresh_state();
    second.init(&templates, &files).unwrap();
    assert_eq!(first.index.records.len(), second.index.records.len());
    for (a, b) in first.index.records.iter().zip(second.index.records.iter()) {
        assert_eq!(a.file_name, b.file_name);
        assert_eq!(a.template_name, b.template_name);
        assert_eq!(a.path, b.path);
    }
    let ra = first.index.records[0].outline(&first.index.org_map).unwrap();
    let rb = second.index.records[0].outline(&second.index.org_map).unwrap();
    assert_eq!(ra.title, rb.title);
    assert_eq!(ra.tree.elements, rb.tree.elements);
}
