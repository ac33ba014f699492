//! Calls into the editor host: settings, PATH lookup, release queries,
//! file permissions and installation status.
use vstd::prelude::*;
use crate::acquire::{Action, Event};
use crate::command::{command_from_override, LaunchSpec};

verus! {

#[verifier::external_type_specification]
#[verifier::external_body]
pub struct ExWorktree(zed_extension_api::Worktree);

#[verifier::external_type_specification]
#[verifier::external_body]
pub struct ExLanguageServerId(zed_extension_api::LanguageServerId);

/// Name under which the user's override of the language server command is
/// looked up in the settings.
pub const SETTINGS_KEY: &'static str = "sqleibniz";

/// Relies on zed_extension_api::settings::LspSettings::for_worktree: the
/// path and arguments of the `binary` override configured under `name`, or
/// `None` when no such override is set or the settings cannot be read.
#[verifier::external_body]
fn settings_override(
    worktree: &zed_extension_api::Worktree,
    name: &str,
) -> (r: Option<(Option<String>, Option<Vec<String>>)>) {
    zed_extension_api::settings::LspSettings::for_worktree(name, worktree)
        .ok()
        .and_then(|settings| settings.binary)
        .map(|binary| (binary.path, binary.arguments))
}

/// Relies on zed_extension_api::Worktree::which: the binary's location on
/// the worktree's PATH, if found.
#[verifier::external_body]
fn find_on_path(worktree: &zed_extension_api::Worktree, name: &String) -> (r: Option<String>) {
    worktree.which(name)
}

/// Relies on zed_extension_api::latest_github_release: the version of the
/// latest release of `repo` under the given filters, or the error.
#[verifier::external_body]
fn latest_release_version(repo: &String, pre_release: bool, require_assets: bool) -> (r: Result<String, String>) {
    let options = zed_extension_api::GithubReleaseOptions { require_assets, pre_release };
    zed_extension_api::latest_github_release(repo, options).map(|release| release.version)
}

/// Relies on zed_extension_api::make_file_executable: marks the file at
/// `path` executable, or returns the error.
#[verifier::external_body]
fn mark_executable(path: &String) -> (r: Result<(), String>) {
    zed_extension_api::make_file_executable(path)
}

/// Installation progress shown by the host.
pub enum InstallStatus {
    CheckingForUpdate,
    Downloading,
}

/// Relies on zed_extension_api::set_language_server_installation_status:
/// shows `status` for the language server `id`.
#[verifier::external_body]
fn report_status(id: &zed_extension_api::LanguageServerId, status: InstallStatus) {
    let status = match status {
        InstallStatus::CheckingForUpdate => zed_extension_api::LanguageServerInstallationStatus::CheckingForUpdate,
        InstallStatus::Downloading => zed_extension_api::LanguageServerInstallationStatus::Downloading,
    };
    zed_extension_api::set_language_server_installation_status(id, &status)
}

/// The launch command from the worktree's settings override under
/// `SETTINGS_KEY`, if it names a binary path. Whether it does depends on the
/// user's settings; `command::command_from_override` states what the command
/// is for each override.
pub fn override_command(worktree: &zed_extension_api::Worktree) -> (r: Option<LaunchSpec>)
    ensures
        r matches Some(spec) ==> spec.env@.len() == 0,
{
    match settings_override(worktree, SETTINGS_KEY) {
        Some((path, args)) => command_from_override(path, args),
        None => None,
    }
}

/// Performs the actions that the host carries out and returns the event that
/// answers them. Before a release query it reports "checking for update";
/// before a clone it reports "downloading" and leaves the clone itself, like
/// the file checks and pruning, to the caller (`None`).
pub fn perform_host_action(
    worktree: &zed_extension_api::Worktree,
    id: &zed_extension_api::LanguageServerId,
    action: &Action,
) -> (r: Option<Event>)
    ensures
        action is FindOnPath <==> r matches Some(Event::PathLookup(_)),
        action is FetchLatestRelease <==> r matches Some(Event::ReleaseFetched(_)),
        action is MakeExecutable <==> r matches Some(Event::MadeExecutable(_)),
        !(action is FindOnPath || action is FetchLatestRelease || action is MakeExecutable)
            ==> r is None,
{
    match action {
        Action::FindOnPath(name) => Some(Event::PathLookup(find_on_path(worktree, name))),
        Action::FetchLatestRelease(repo, pre_release, require_assets) => {
            report_status(id, InstallStatus::CheckingForUpdate);
            Some(Event::ReleaseFetched(latest_release_version(repo, *pre_release, *require_assets)))
        },
        Action::MakeExecutable(path) => Some(Event::MadeExecutable(mark_executable(path))),
        Action::CloneInto(_, _) => {
            report_status(id, InstallStatus::Downloading);
            None
        },
        _ => None,
    }
}

} // verus!
