use forge_init::fetch::{TemplateAction, TemplateSession};
use forge_init::args::{InitArgs, InstallOpts, SubmoduleSetup};
use forge_init::remappings::remappings_content;
use forge_init::scaffold::{guarded_file, scaffold_dirs, scaffold_files, vyper_config, Asset};
use forge_init::session::{Action, Event, Guarded, InitError, InitFlags, InitSession, Query};
use forge_init::settings::{add_default_settings, editor_settings, SettingsError};
use forge_init::template::{resolve_template_url, template_commit_message};

const SRC_KEY: &str = "solidity.packageDefaultDependenciesContractsDirectory";
const LIB_KEY: &str = "solidity.packageDefaultDependenciesDirectory";

fn flags() -> InitFlags {
    InitFlags { offline: false, force: false, vscode: false, vyper: false, no_git: false, commit: false }
}

/// Feeds the answers to a session and collects every action up to the end.
fn run(f: InitFlags, answer: impl Fn(Query) -> bool) -> Vec<Action> {
    let mut s = InitSession::new(f);
    let mut actions = Vec::new();
    let mut a = s.step(Event::Done);
    for _ in 0..100 {
        actions.push(a);
        let e = match a {
            Action::Ask(q) => Event::Answer(answer(q)),
            Action::Fail(_) | Action::Finish => return actions,
            _ => Event::Done,
        };
        a = s.step(e);
    }
    panic!("session did not end");
}

#[test]
fn shorthand_reference_gets_host_and_scheme() {
    assert_eq!(resolve_template_url("foo/bar"), "https://github.com/foo/bar");
}

#[test]
fn host_reference_gets_scheme() {
    assert_eq!(resolve_template_url("github.com/foo/bar"), "https://github.com/foo/bar");
}

#[test]
fn full_url_is_unchanged() {
    assert_eq!(resolve_template_url("https://example.com/x"), "https://example.com/x");
    assert_eq!(resolve_template_url("git://github.com/a/b"), "git://github.com/a/b");
}

#[test]
fn reference_with_host_inside_is_shorthand() {
    assert_eq!(resolve_template_url("x/github.com/"), "https://github.com/x/github.com/");
    assert_eq!(resolve_template_url(""), "https://github.com/");
}

#[test]
fn template_url_of_args() {
    let mut a = InitArgs::default();
    assert_eq!(a.template_url(), None);
    a.template = Some("foundry-rs/forge-template".to_string());
    assert_eq!(a.template_url(), Some("https://github.com/foundry-rs/forge-template".to_string()));
}

#[test]
fn commit_message_names_url_and_hash() {
    let url = resolve_template_url("foo/bar");
    let msg = template_commit_message(&url, "0123abcd");
    assert_eq!(msg, "chore: init from https://github.com/foo/bar at 0123abcd");
    assert!(msg.contains(&url));
    assert!(msg.contains("0123abcd"));
}

#[test]
fn shallow_template_only_registers_submodules() {
    let mut a = InitArgs::default();
    a.install = InstallOpts { shallow: true, no_git: false, commit: false };
    assert_eq!(a.submodule_setup(), SubmoduleSetup::InitOnly);
    a.install.shallow = false;
    assert_eq!(a.submodule_setup(), SubmoduleSetup::UpdateRecursive);
}

#[test]
fn remappings_are_sorted_whatever_the_order() {
    let a = remappings_content(vec!["b/x".to_string(), "a/y".to_string()]);
    let b = remappings_content(vec!["a/y".to_string(), "b/x".to_string()]);
    assert_eq!(a, Some("a/y\nb/x".to_string()));
    assert_eq!(b, Some("a/y\nb/x".to_string()));
}

#[test]
fn remappings_drop_repeats() {
    let r = remappings_content(vec![
        "forge-std/=lib/forge-std/src/".to_string(),
        "ds-test/=lib/ds-test/src/".to_string(),
        "forge-std/=lib/forge-std/src/".to_string(),
    ]);
    assert_eq!(r, Some("ds-test/=lib/ds-test/src/\nforge-std/=lib/forge-std/src/".to_string()));
}

#[test]
fn no_remappings_no_file() {
    assert_eq!(remappings_content(vec![]), None);
    assert_eq!(remappings_content(vec!["only".to_string()]), Some("only".to_string()));
}

#[test]
fn settings_keep_existing_library_key() {
    let existing = format!("{{\"{}\": \"custom\"}}", LIB_KEY);
    let out = editor_settings(Some(&existing)).ok().unwrap();
    let v: serde_json::Value = serde_json::from_str(&out).unwrap();
    let obj = v.as_object().unwrap();
    assert_eq!(obj.len(), 2);
    assert_eq!(obj[LIB_KEY], serde_json::Value::String("custom".to_string()));
    assert_eq!(obj[SRC_KEY], serde_json::Value::String("src".to_string()));
}

#[test]
fn settings_from_nothing_get_both_keys() {
    let out = editor_settings(None).ok().unwrap();
    let v: serde_json::Value = serde_json::from_str(&out).unwrap();
    let obj = v.as_object().unwrap();
    assert_eq!(obj.len(), 2);
    assert_eq!(obj[LIB_KEY], serde_json::Value::String("lib".to_string()));
    assert_eq!(obj[SRC_KEY], serde_json::Value::String("src".to_string()));
}

#[test]
fn settings_keep_other_keys() {
    let out = editor_settings(Some("{\"editor.tabSize\": 4}")).ok().unwrap();
    let v: serde_json::Value = serde_json::from_str(&out).unwrap();
    let obj = v.as_object().unwrap();
    assert_eq!(obj.len(), 3);
    assert_eq!(obj["editor.tabSize"], serde_json::Value::from(4));
}

#[test]
fn malformed_settings_are_an_error() {
    assert!(matches!(editor_settings(Some("{not json")), Err(SettingsError::Malformed(_))));
    assert!(matches!(editor_settings(Some("[1, 2]")), Err(SettingsError::Malformed(_))));
}

#[test]
fn default_settings_added_to_map() {
    let mut m = serde_json::Map::new();
    m.insert(SRC_KEY.to_string(), serde_json::Value::String("contracts".to_string()));
    add_default_settings(&mut m);
    assert_eq!(m.len(), 2);
    assert_eq!(m[SRC_KEY], serde_json::Value::String("contracts".to_string()));
    assert_eq!(m[LIB_KEY], serde_json::Value::String("lib".to_string()));
}

#[test]
fn non_empty_root_without_force_fails_first() {
    let acts = run(flags(), |q| q == Query::RootNonEmpty);
    assert_eq!(acts, vec![Action::Ask(Query::RootNonEmpty), Action::Fail(InitError::NonEmptyRoot)]);
}

#[test]
fn non_empty_root_with_force_warns() {
    let f = InitFlags { force: true, offline: true, no_git: true, ..flags() };
    let acts = run(f, |q| q == Query::RootNonEmpty);
    assert_eq!(
        acts,
        vec![
            Action::Ask(Query::RootNonEmpty),
            Action::WarnNonEmpty,
            Action::Scaffold,
            Action::Ask(Query::Exists(Guarded::Config)),
            Action::Write(Guarded::Config),
            Action::Finish,
        ]
    );
}

#[test]
fn unclean_tree_fails_before_scaffold() {
    let f = InitFlags { commit: true, ..flags() };
    let acts = run(f, |q| q == Query::InRepo);
    assert_eq!(
        acts,
        vec![
            Action::Ask(Query::RootNonEmpty),
            Action::Ask(Query::InRepo),
            Action::Ask(Query::WorkingTreeClean),
            Action::Fail(InitError::UncleanTree),
        ]
    );
}

#[test]
fn fresh_root_full_run() {
    let f = InitFlags { commit: true, vscode: true, ..flags() };
    let acts = run(f, |_| false);
    assert_eq!(
        acts,
        vec![
            Action::Ask(Query::RootNonEmpty),
            Action::Ask(Query::InRepo),
            Action::Scaffold,
            Action::Ask(Query::Exists(Guarded::Config)),
            Action::Write(Guarded::Config),
            Action::Ask(Query::InRepo),
            Action::GitInit,
            Action::Ask(Query::Exists(Guarded::Gitignore)),
            Action::Write(Guarded::Gitignore),
            Action::Ask(Query::Exists(Guarded::Workflow)),
            Action::Write(Guarded::Workflow),
            Action::CommitAll,
            Action::Ask(Query::StdLibPresent),
            Action::Install { add_std: true },
            Action::EditorConfig,
            Action::Finish,
        ]
    );
}

#[test]
fn second_run_writes_no_guarded_file() {
    let f = InitFlags { force: true, ..flags() };
    let acts = run(f, |_| true);
    assert!(acts.iter().all(|a| !matches!(a, Action::Write(_))));
    assert!(acts.contains(&Action::Install { add_std: false }));
    assert!(!acts.contains(&Action::GitInit));
    assert_eq!(acts.last(), Some(&Action::Finish));
}

#[test]
fn wrong_event_repeats_question() {
    let mut s = InitSession::new(flags());
    assert_eq!(s.step(Event::Done), Action::Ask(Query::RootNonEmpty));
    assert_eq!(s.step(Event::Done), Action::Ask(Query::RootNonEmpty));
    assert_eq!(s.step(Event::Answer(false)), Action::Scaffold);
    assert_eq!(s.step(Event::Answer(true)), Action::Scaffold);
}

#[test]
fn scaffold_layout_per_variant() {
    assert_eq!(scaffold_dirs(false), vec!["src", "test", "script"]);
    assert_eq!(scaffold_dirs(true), vec!["src", "test", "script", "src/interface", "src/utils"]);
    let sol = scaffold_files(false);
    assert_eq!(sol.len(), 4);
    assert_eq!(sol[3].path, "src/Counter.sol");
    assert_eq!(sol[3].asset, Asset::SolidityContract);
    let vy = scaffold_files(true);
    assert_eq!(vy.len(), 6);
    assert_eq!(vy[3].path, "src/Counter.vy");
    assert_eq!(vy[5].path, "src/utils/VyperDeployer.sol");
}

#[test]
fn guarded_files_per_variant() {
    assert_eq!(guarded_file(Guarded::Config, true).asset, Asset::VyperConfig);
    assert_eq!(guarded_file(Guarded::Config, false).asset, Asset::DefaultConfig);
    assert_eq!(guarded_file(Guarded::Workflow, false).path, ".github/workflows/test.yml");
    assert_eq!(guarded_file(Guarded::Gitignore, true).path, ".gitignore");
}

#[test]
fn template_run_collapses_history() {
    let url = resolve_template_url("foo/bar");
    let mut t = TemplateSession::new(url.clone(), Some("main".to_string()), false);
    assert_eq!(t.step(None), TemplateAction::GitInit);
    assert_eq!(
        t.step(None),
        TemplateAction::FetchShallow { url: url.clone(), branch: Some("main".to_string()) }
    );
    assert_eq!(t.step(None), TemplateAction::ReadFetchedHash);
    assert_eq!(t.step(None), TemplateAction::ReadFetchedHash);
    let msg = "chore: init from https://github.com/foo/bar at abc123".to_string();
    assert_eq!(t.step(Some("abc123".to_string())), TemplateAction::CommitTree { message: msg.clone() });
    assert_eq!(t.step(None), TemplateAction::CommitTree { message: msg });
    assert_eq!(
        t.step(Some("def456".to_string())),
        TemplateAction::ResetHard { commit: "def456".to_string() }
    );
    assert_eq!(t.step(None), TemplateAction::Submodules(SubmoduleSetup::UpdateRecursive));
    assert_eq!(t.step(None), TemplateAction::Finish);
    assert_eq!(t.step(None), TemplateAction::Finish);
}

#[test]
fn shallow_template_run_only_registers_submodules() {
    let mut t = TemplateSession::new("https://example.com/x".to_string(), None, true);
    t.step(None);
    assert_eq!(
        t.step(None),
        TemplateAction::FetchShallow { url: "https://example.com/x".to_string(), branch: None }
    );
    t.step(None);
    t.step(Some("h".to_string()));
    t.step(Some("c".to_string()));
    assert_eq!(t.step(None), TemplateAction::Submodules(SubmoduleSetup::InitOnly));
}

#[test]
fn settings_text_is_indented_in_key_order() {
    assert_eq!(
        editor_settings(None).ok().unwrap(),
        "{\n  \"solidity.packageDefaultDependenciesContractsDirectory\": \"src\",\n  \"solidity.packageDefaultDependenciesDirectory\": \"lib\"\n}"
    );
}

#[test]
fn vyper_config_enables_ffi() {
    assert_eq!(
        vyper_config(),
        "[profile.default]\nsrc = \"src\"\nout = \"out\"\nlibs = [\"lib\"]\nffi = true\n\n# See more config options https://github.com/foundry-rs/foundry/blob/master/crates/config/README.md#all-options"
    );
}

#[test]
fn settings_merge_runs_twice() {
    let first = editor_settings(None).ok().unwrap();
    let second = editor_settings(Some(&first)).ok().unwrap();
    assert_eq!(first, second);
}
