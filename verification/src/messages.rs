//! The user-facing diagnostic lines, built exactly: a failed run always
//! produces one such line on the error stream.

use vstd::prelude::*;
use vstd::string::StringExecFns;
use crate::locate::LocateError;

verus! {

/// The usage line printed when no command argument was given, naming the
/// invoking program.
pub fn usage_message(program: &str) -> (m: String)
    ensures
        m@ == "Usage: "@ + program@ + " <command> [args...]"@,
{
    let mut m = "Usage: ".to_owned();
    m.append(program);
    m.append(" <command> [args...]");
    m
}

/// The diagnostic for a command that could not be located at all.
pub fn not_found_message(command: &str) -> (m: String)
    ensures
        m@ == "Error: Command '"@ + command@ + "' not found"@,
{
    let mut m = "Error: Command '".to_owned();
    m.append(command);
    m.append("' not found");
    m
}

/// The diagnostic for a command that was found but cannot be launched from
/// the current restricted (network-mounted) context.
pub fn found_but_restricted_message(path: &str) -> (m: String)
    ensures
        m@ == "Error: Command '"@ + path@
            + "' found but cannot be executed from UNC path (network drive). Use .exe files or run from a local drive."@,
{
    let mut m = "Error: Command '".to_owned();
    m.append(path);
    m.append(
        "' found but cannot be executed from UNC path (network drive). Use .exe files or run from a local drive.",
    );
    m
}

/// The diagnostic for a child process that the operating system refused to
/// start, carrying the attempted path and the OS error text.
pub fn spawn_error_message(path: &str, detail: &str) -> (m: String)
    ensures
        m@ == "Error starting '"@ + path@ + "': "@ + detail@,
{
    let mut m = "Error starting '".to_owned();
    m.append(path);
    m.append("': ");
    m.append(detail);
    m
}

/// The diagnostic for a child process whose termination the operating
/// system failed to report.
pub fn wait_error_message(path: &str, detail: &str) -> (m: String)
    ensures
        m@ == "Error waiting for '"@ + path@ + "': "@ + detail@,
{
    let mut m = "Error waiting for '".to_owned();
    m.append(path);
    m.append("': ");
    m.append(detail);
    m
}

impl LocateError {
    /// The diagnostic line for this resolution failure.
    pub fn message(&self) -> (m: String)
        ensures
            self matches LocateError::NotFound { command } ==> m@ == "Error: Command '"@
                + command@ + "' not found"@,
            self matches LocateError::FoundButRestricted { path } ==> m@ == "Error: Command '"@
                + path@
                + "' found but cannot be executed from UNC path (network drive). Use .exe files or run from a local drive."@,
    {
        match self {
            LocateError::NotFound { command } => not_found_message(command.as_str()),
            LocateError::FoundButRestricted { path } => found_but_restricted_message(
                path.as_str(),
            ),
        }
    }
}

} // verus!
