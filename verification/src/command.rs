//! The fixed table from package-manager identifier to update command.

use vstd::prelude::*;

use crate::text::str_eq;

verus! {

/// The update command and arguments for a manager identifier: `Some` for the
/// six known managers, `None` for every other identifier.
pub open spec fn update_command_spec(pm: Seq<char>, pkg: Seq<char>) -> Option<
    (Seq<char>, Seq<Seq<char>>),
> {
    if pm == "homebrew"@ {
        Some(("brew"@, seq!["upgrade"@, pkg]))
    } else if pm == "bun"@ {
        Some(("bun"@, seq!["update"@, "-g"@, pkg]))
    } else if pm == "npm"@ {
        Some(("npm"@, seq!["update"@, "-g"@, pkg]))
    } else if pm == "pnpm"@ {
        Some(("pnpm"@, seq!["update"@, "-g"@, pkg]))
    } else if pm == "cargo"@ {
        Some(("cargo"@, seq!["install"@, pkg]))
    } else if pm == "yarn"@ {
        Some(("yarn"@, seq!["global"@, "upgrade"@, pkg]))
    } else {
        None
    }
}

/// The update-command table is a total function over the six known manager
/// identifiers, and refuses every other identifier.
pub proof fn lemma_update_command_total(pm: Seq<char>, pkg: Seq<char>)
    ensures
        update_command_spec(pm, pkg) is Some <==> (pm == "homebrew"@ || pm == "bun"@ || pm
            == "npm"@ || pm == "pnpm"@ || pm == "cargo"@ || pm == "yarn"@),
{
}

/// Builds an argument list of two elements.
pub(crate) fn args2(a0: &str, a1: &str) -> (r: Vec<String>)
    ensures
        r.deep_view() =~= seq![a0@, a1@],
{
    let mut r: Vec<String> = Vec::new();
    r.push(String::from_str(a0));
    r.push(String::from_str(a1));
    proof {
        assert(r.deep_view() =~= seq![a0@, a1@]);
    }
    r
}

/// Builds an argument list of three elements.
pub(crate) fn args3(a0: &str, a1: &str, a2: &str) -> (r: Vec<String>)
    ensures
        r.deep_view() =~= seq![a0@, a1@, a2@],
{
    let mut r: Vec<String> = Vec::new();
    r.push(String::from_str(a0));
    r.push(String::from_str(a1));
    r.push(String::from_str(a2));
    proof {
        assert(r.deep_view() =~= seq![a0@, a1@, a2@]);
    }
    r
}

/// The command to run to update `package_name` through `package_manager`,
/// per the fixed table; an unknown identifier is refused with an
/// "Unsupported package manager" error.
pub fn get_update_command(package_manager: &str, package_name: &str) -> (r: Result<
    (String, Vec<String>),
    String,
>)
    ensures
        match r {
            Ok(c) => update_command_spec(package_manager@, package_name@) == Some(
                (c.0@, c.1.deep_view()),
            ),
            Err(e) => update_command_spec(package_manager@, package_name@) is None && e@
                == "Unsupported package manager: "@ + package_manager@,
        },
{
    if str_eq(package_manager, "homebrew") {
        Ok((String::from_str("brew"), args2("upgrade", package_name)))
    } else if str_eq(package_manager, "bun") {
        Ok((String::from_str("bun"), args3("update", "-g", package_name)))
    } else if str_eq(package_manager, "npm") {
        Ok((String::from_str("npm"), args3("update", "-g", package_name)))
    } else if str_eq(package_manager, "pnpm") {
        Ok((String::from_str("pnpm"), args3("update", "-g", package_name)))
    } else if str_eq(package_manager, "cargo") {
        Ok((String::from_str("cargo"), args2("install", package_name)))
    } else if str_eq(package_manager, "yarn") {
        Ok((String::from_str("yarn"), args3("global", "upgrade", package_name)))
    } else {
        Err(String::from_str("Unsupported package manager: ").concat(package_manager))
    }
}

/// The error reported when the update command cannot be started; `error` is
/// the operating system's description of the failure.
pub fn launch_failure_message(command: &str, error: &str) -> (r: String)
    ensures
        r@ == "Failed to run "@ + command@ + ": "@ + error@,
{
    String::from_str("Failed to run ").concat(command).concat(": ").concat(error)
}

/// The error reported when waiting on the update command fails; `error` is
/// the operating system's description of the failure.
pub fn wait_failure_message(command: &str, error: &str) -> (r: String)
    ensures
        r@ == "Failed to wait for "@ + command@ + ": "@ + error@,
{
    String::from_str("Failed to wait for ").concat(command).concat(": ").concat(error)
}

/// The error reported when the update command exits unsuccessfully.
pub fn update_failure_message(package_name: &str, manager: &str) -> (r: String)
    ensures
        r@ == "Failed to update "@ + package_name@ + " with "@ + manager@,
{
    String::from_str("Failed to update ").concat(package_name).concat(" with ").concat(manager)
}

} // verus!
