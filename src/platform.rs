//! Mapping from the host operating system to the tool's binary file name.
use vstd::prelude::*;
use vstd::string::*;

verus! {

/// The operating systems the host runtime reports.
#[derive(Clone, Copy, Debug, PartialEq, Eq, Structural)]
pub enum Platform {
    Mac,
    Linux,
    Windows,
}

/// Executable suffix used on a platform.
pub open spec fn suffix_of(p: Platform) -> Seq<char> {
    match p {
        Platform::Windows => ".exe"@,
        _ => Seq::empty(),
    }
}

/// The binary's file name on a platform: the base name and the suffix.
pub open spec fn binary_name_of(p: Platform) -> Seq<char> {
    "sql_tool"@ + suffix_of(p)
}

/// File name of the tool's executable on platform `p`.
pub fn binary_name(p: Platform) -> (r: String)
    ensures
        r@ == binary_name_of(p),
{
    let base = String::from_str("sql_tool");
    match p {
        Platform::Windows => base.concat(".exe"),
        _ => {
            proof {
                assert(base@ + Seq::<char>::empty() =~= base@);
            }
            base
        },
    }
}

/// Maps the host runtime's operating system to the library's platform type.
/// Relies on zed_extension_api::current_platform, whose answer depends on the
/// machine, so nothing is stated of it.
#[verifier::external_body]
fn host_platform() -> (r: Platform) {
    match zed_extension_api::current_platform().0 {
        zed_extension_api::Os::Mac => Platform::Mac,
        zed_extension_api::Os::Linux => Platform::Linux,
        zed_extension_api::Os::Windows => Platform::Windows,
    }
}

/// File name of the tool's executable on the platform the host reports.
pub fn host_binary_name() -> (r: String)
    ensures
        exists|p: Platform| r@ == binary_name_of(p),
{
    let p = host_platform();
    binary_name(p)
}

/// Naming is a function of the platform alone: equal platforms give equal names.
pub proof fn binary_name_deterministic(p: Platform, q: Platform)
    requires
        p == q,
    ensures
        binary_name_of(p) == binary_name_of(q),
{
}

/// Only the Windows name carries a suffix; the others are the bare base name.
pub proof fn binary_name_suffixes(p: Platform)
    ensures
        p == Platform::Windows ==> binary_name_of(p) == "sql_tool"@ + ".exe"@,
        p != Platform::Windows ==> binary_name_of(p) =~= "sql_tool"@,
{
}

} // verus!
