//! Assembly of the launch command, honouring a user override.
use vstd::prelude::*;

verus! {

/// How to start the tool: executable, arguments and extra environment.
pub struct LaunchSpec {
    pub command: String,
    pub args: Vec<String>,
    pub env: Vec<(String, String)>,
}

/// The launch command a settings override gives: with an override path, that
/// path verbatim and the override's arguments (none if it gives none);
/// without one, nothing, and the executable must be resolved.
pub fn command_from_override(path: Option<String>, args: Option<Vec<String>>) -> (r: Option<LaunchSpec>)
    ensures
        r is Some <==> path is Some,
        r matches Some(spec) ==> spec.command == path->0
            && spec.env@.len() == 0
            && (args matches Some(a) ==> spec.args@ == a@)
            && (args is None ==> spec.args@.len() == 0),
{
    match path {
        Some(command) => {
            let args = match args {
                Some(a) => a,
                None => Vec::new(),
            };
            Some(LaunchSpec { command, args, env: Vec::new() })
        },
        None => None,
    }
}

/// The launch command for a resolved executable: no arguments and no extra
/// environment.
pub fn resolved_command(path: String) -> (r: LaunchSpec)
    ensures
        r.command == path,
        r.args@.len() == 0,
        r.env@.len() == 0,
{
    LaunchSpec { command: path, args: Vec::new(), env: Vec::new() }
}

} // verus!
