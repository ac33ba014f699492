use sql_tool::acquire::{Action, Event, ResolveError, ToolManager, RELEASE_REPO, REPO_URL};
use sql_tool::command::{command_from_override, resolved_command};
use sql_tool::layout::{executable_path, stale_entries, version_dir_name};
use sql_tool::platform::{binary_name, Platform};

fn resolved(a: Action) -> String {
    match a {
        Action::Resolved(p) => p,
        _ => panic!("expected a resolved path"),
    }
}

fn checked_file(a: Action) -> String {
    match a {
        Action::CheckFile(p) => p,
        _ => panic!("expected a file check"),
    }
}

fn manager_with_cache(path: &str) -> ToolManager {
    let mut m = ToolManager::new();
    assert!(matches!(m.start(binary_name(Platform::Linux)), Action::FindOnPath(_)));
    let p = resolved(m.advance(Event::PathLookup(Some(path.to_string()))));
    assert_eq!(p, path);
    m
}

#[test]
fn binary_name_per_platform() {
    assert_eq!(binary_name(Platform::Mac), "sql_tool");
    assert_eq!(binary_name(Platform::Linux), "sql_tool");
    assert_eq!(binary_name(Platform::Windows), "sql_tool.exe");
}

#[test]
fn binary_name_is_stable_across_calls() {
    for p in [Platform::Mac, Platform::Linux, Platform::Windows] {
        assert_eq!(binary_name(p), binary_name(p));
    }
}

#[test]
fn version_directory_and_executable_path() {
    let dir = version_dir_name("1.4.0");
    assert_eq!(dir, "sqleibniz-1.4.0");
    assert_eq!(executable_path(&dir, "sql_tool.exe"), "sqleibniz-1.4.0/sql_tool.exe");
}

#[test]
fn pruning_selects_every_other_entry() {
    let entries = vec![
        "sqleibniz-1.3.0".to_string(),
        "sqleibniz-1.4.0".to_string(),
        "notes".to_string(),
    ];
    let stale = stale_entries(&entries, &"sqleibniz-1.4.0".to_string());
    assert_eq!(stale, vec!["sqleibniz-1.3.0".to_string(), "notes".to_string()]);
}

#[test]
fn pruning_an_empty_root_selects_nothing() {
    assert!(stale_entries(&vec![], &"sqleibniz-1.4.0".to_string()).is_empty());
    let only = vec!["sqleibniz-1.4.0".to_string()];
    assert!(stale_entries(&only, &"sqleibniz-1.4.0".to_string()).is_empty());
}

#[test]
fn fresh_manager_looks_up_path_first() {
    let mut m = ToolManager::new();
    assert!(m.cached_path().is_none());
    match m.start("sql_tool".to_string()) {
        Action::FindOnPath(name) => assert_eq!(name, "sql_tool"),
        _ => panic!("expected a PATH lookup"),
    }
}

#[test]
fn path_hit_is_cached() {
    let m = manager_with_cache("/usr/bin/sql_tool");
    assert_eq!(m.cached_path(), Some("/usr/bin/sql_tool".to_string()));
}

#[test]
fn cache_hit_skips_lookup_and_network() {
    let mut m = manager_with_cache("/usr/bin/sql_tool");
    let mut actions = 0;
    let first = m.start("sql_tool".to_string());
    actions += 1;
    assert_eq!(checked_file(first), "/usr/bin/sql_tool");
    let second = m.advance(Event::FileChecked(true));
    actions += 1;
    assert_eq!(resolved(second), "/usr/bin/sql_tool");
    assert_eq!(actions, 2);
}

#[test]
fn stale_cache_falls_through_to_path_lookup() {
    let mut m = manager_with_cache("/usr/bin/sql_tool");
    assert_eq!(checked_file(m.start("sql_tool".to_string())), "/usr/bin/sql_tool");
    match m.advance(Event::FileChecked(false)) {
        Action::FindOnPath(name) => assert_eq!(name, "sql_tool"),
        _ => panic!("expected a PATH lookup"),
    }
    match m.advance(Event::PathLookup(None)) {
        Action::FetchLatestRelease(repo, pre_release, require_assets) => {
            assert_eq!(repo, RELEASE_REPO);
            assert!(!pre_release);
            assert!(!require_assets);
        }
        _ => panic!("expected a release query"),
    }
}

fn to_release_query(m: &mut ToolManager, binary: &str) {
    assert!(matches!(m.start(binary.to_string()), Action::FindOnPath(_)));
    assert!(matches!(m.advance(Event::PathLookup(None)), Action::FetchLatestRelease(_, false, false)));
}

#[test]
fn installed_version_is_not_cloned_again() {
    let mut m = ToolManager::new();
    for _ in 0..2 {
        to_release_query(&mut m, "sql_tool");
        let exe = checked_file(m.advance(Event::ReleaseFetched(Ok("1.4.0".to_string()))));
        assert_eq!(exe, "sqleibniz-1.4.0/sql_tool");
        assert_eq!(resolved(m.advance(Event::FileChecked(true))), exe);
        assert_eq!(m.cached_path(), Some(exe));
        m = ToolManager::new();
    }
}

#[test]
fn release_query_failure_is_surfaced() {
    let mut m = ToolManager::new();
    to_release_query(&mut m, "sql_tool");
    match m.advance(Event::ReleaseFetched(Err("repository not found".to_string()))) {
        Action::Failed(ResolveError::NetworkOrLookup(msg)) => assert_eq!(msg, "repository not found"),
        _ => panic!("expected a lookup error"),
    }
    assert!(m.cached_path().is_none());
}

#[test]
fn failed_clone_surfaces_error_and_retry_installs() {
    let mut m = ToolManager::new();
    to_release_query(&mut m, "sql_tool");
    checked_file(m.advance(Event::ReleaseFetched(Ok("1.4.0".to_string()))));
    assert!(matches!(m.advance(Event::FileChecked(false)), Action::CloneInto(_, _)));
    match m.advance(Event::Cloned(Err("exit status: 128".to_string()))) {
        Action::Failed(ResolveError::Acquisition(msg)) => assert_eq!(msg, "exit status: 128"),
        _ => panic!("expected an acquisition error"),
    }
    assert!(m.cached_path().is_none());

    to_release_query(&mut m, "sql_tool");
    checked_file(m.advance(Event::ReleaseFetched(Ok("1.4.0".to_string()))));
    assert!(matches!(m.advance(Event::FileChecked(false)), Action::CloneInto(_, _)));
    assert!(matches!(m.advance(Event::Cloned(Ok(()))), Action::MakeExecutable(_)));
    assert!(matches!(m.advance(Event::MadeExecutable(Ok(()))), Action::Prune(_)));
    assert_eq!(resolved(m.advance(Event::Pruned)), "sqleibniz-1.4.0/sql_tool");
    assert_eq!(m.cached_path(), Some("sqleibniz-1.4.0/sql_tool".to_string()));
}

#[test]
fn chmod_failure_is_a_permission_error() {
    let mut m = ToolManager::new();
    to_release_query(&mut m, "sql_tool");
    checked_file(m.advance(Event::ReleaseFetched(Ok("2.0.0".to_string()))));
    assert!(matches!(m.advance(Event::FileChecked(false)), Action::CloneInto(_, _)));
    assert!(matches!(m.advance(Event::Cloned(Ok(()))), Action::MakeExecutable(_)));
    match m.advance(Event::MadeExecutable(Err("denied".to_string()))) {
        Action::Failed(ResolveError::Permission(msg)) => assert_eq!(msg, "denied"),
        _ => panic!("expected a permission error"),
    }
    assert!(m.cached_path().is_none());
}

#[test]
fn end_to_end_install_of_1_4_0() {
    let binary = binary_name(Platform::Windows);
    let mut m = ToolManager::new();
    match m.start(binary.clone()) {
        Action::FindOnPath(name) => assert_eq!(name, "sql_tool.exe"),
        _ => panic!("expected a PATH lookup"),
    }
    match m.advance(Event::PathLookup(None)) {
        Action::FetchLatestRelease(repo, pre_release, require_assets) => {
            assert_eq!(repo, "xNaCly/sqleibniz");
            assert!(!pre_release);
            assert!(!require_assets);
        }
        _ => panic!("expected a release query"),
    }
    let exe = checked_file(m.advance(Event::ReleaseFetched(Ok("1.4.0".to_string()))));
    assert_eq!(exe, "sqleibniz-1.4.0/sql_tool.exe");
    match m.advance(Event::FileChecked(false)) {
        Action::CloneInto(url, dest) => {
            assert_eq!(url, REPO_URL);
            assert_eq!(url, "https://github.com/xNaCly/sqleibniz");
            assert_eq!(dest, "sqleibniz-1.4.0");
        }
        _ => panic!("expected a clone"),
    }
    match m.advance(Event::Cloned(Ok(()))) {
        Action::MakeExecutable(p) => assert_eq!(p, "sqleibniz-1.4.0/sql_tool.exe"),
        _ => panic!("expected chmod"),
    }
    let keep = match m.advance(Event::MadeExecutable(Ok(()))) {
        Action::Prune(dir) => dir,
        _ => panic!("expected pruning"),
    };
    assert_eq!(keep, "sqleibniz-1.4.0");
    let root = vec!["sqleibniz-1.3.0".to_string(), "sqleibniz-1.4.0".to_string()];
    assert_eq!(stale_entries(&root, &keep), vec!["sqleibniz-1.3.0".to_string()]);
    assert_eq!(resolved(m.advance(Event::Pruned)), "sqleibniz-1.4.0/sql_tool.exe");
    assert_eq!(m.cached_path(), Some("sqleibniz-1.4.0/sql_tool.exe".to_string()));
}

#[test]
fn manager_expects_only_the_answer_to_its_request() {
    let mut m = ToolManager::new();
    assert!(!m.expects(&Event::Pruned));
    m.start("sql_tool".to_string());
    assert!(m.expects(&Event::PathLookup(None)));
    assert!(!m.expects(&Event::FileChecked(true)));
}

#[test]
fn override_with_path_and_arguments_is_used_verbatim() {
    let spec = command_from_override(
        Some("/opt/sqleibniz/bin/sql_tool".to_string()),
        Some(vec!["--lsp".to_string(), "-v".to_string()]),
    )
    .expect("override path given");
    assert_eq!(spec.command, "/opt/sqleibniz/bin/sql_tool");
    assert_eq!(spec.args, vec!["--lsp".to_string(), "-v".to_string()]);
    assert!(spec.env.is_empty());
}

#[test]
fn override_path_without_arguments_has_none() {
    let spec = command_from_override(Some("tool".to_string()), None).expect("override path given");
    assert_eq!(spec.command, "tool");
    assert!(spec.args.is_empty());
}

#[test]
fn override_without_path_defers_to_resolution() {
    assert!(command_from_override(None, Some(vec!["--lsp".to_string()])).is_none());
    assert!(command_from_override(None, None).is_none());
}

#[test]
fn resolved_command_has_no_arguments() {
    let spec = resolved_command("sqleibniz-1.4.0/sql_tool".to_string());
    assert_eq!(spec.command, "sqleibniz-1.4.0/sql_tool");
    assert!(spec.args.is_empty());
    assert!(spec.env.is_empty());
}

#[test]
fn override_is_looked_up_under_the_tool_key() {
    assert_eq!(sql_tool::host::SETTINGS_KEY, "sqleibniz");
}
