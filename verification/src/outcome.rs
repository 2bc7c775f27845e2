//! Outcome handling: the launcher's error kinds, their human-readable
//! messages, interpretation of the external utility's exit status, and the
//! host-platform guard. Every error kind is terminal for the run.

use crate::redact::is_substring;
use crate::strutil::{int_dec, i32_dec};
use vstd::prelude::*;

verus! {

/// Everything that can end a run without a created image.
pub enum LauncherError {
    /// The host is not the one platform the external utility exists on.
    UnsupportedPlatform,
    /// The interactive passphrase prompt failed; holds the underlying report.
    InputError(String),
    /// The external utility could not be started; holds the underlying report.
    SpawnError(String),
    /// The external utility ran and reported failure; holds its exit code,
    /// or `None` when it was ended by a signal.
    ToolExecutionError(Option<i32>),
}

/// The message printed for each error kind.
pub open spec fn spec_message(e: &LauncherError) -> Seq<char> {
    match e {
        LauncherError::UnsupportedPlatform => {
            "This tool only works on macOS because it shells out to hdiutil."@
        },
        LauncherError::InputError(detail) => detail@,
        LauncherError::SpawnError(detail) => detail@,
        LauncherError::ToolExecutionError(code) => match code {
            Some(n) => "hdiutil exited with status "@ + int_dec(*n as int),
            None => "hdiutil was terminated by a signal"@,
        },
    }
}

impl LauncherError {
    /// The human-readable message for this error.
    pub fn message(&self) -> (r: String)
        ensures
            r@ == spec_message(self),
    {
        match self {
            LauncherError::UnsupportedPlatform => {
                String::from_str("This tool only works on macOS because it shells out to hdiutil.")
            },
            LauncherError::InputError(detail) => detail.clone(),
            LauncherError::SpawnError(detail) => detail.clone(),
            LauncherError::ToolExecutionError(code) => match code {
                Some(n) => {
                    let mut s = String::from_str("hdiutil exited with status ");
                    s.append(i32_dec(*n).as_str());
                    s
                },
                None => String::from_str("hdiutil was terminated by a signal"),
            },
        }
    }
}

/// Interpret the external utility's exit status: exit code 0 is success,
/// anything else — a non-zero code or death by signal — is a
/// `ToolExecutionError` carrying the observed code.
pub fn tool_outcome(code: Option<i32>) -> (r: Result<(), LauncherError>)
    ensures
        r is Ok <==> code == Some(0i32),
        r matches Err(e) ==> e == LauncherError::ToolExecutionError(code),
{
    match code {
        Some(0) => Ok(()),
        _ => Err(LauncherError::ToolExecutionError(code)),
    }
}

/// The platform guard: the whole operation is defined only where the external
/// utility exists. On any other host the run fails at once, before any
/// parsing, prompting or spawning.
pub fn check_platform(os: &str) -> (r: Result<(), LauncherError>)
    ensures
        r is Ok <==> os@ == "macos"@,
        r matches Err(e) ==> e == LauncherError::UnsupportedPlatform,
{
    if crate::strutil::str_eq(os, "macos") {
        Ok(())
    } else {
        Err(LauncherError::UnsupportedPlatform)
    }
}

/// A failing utility run is reported with a message that contains the
/// observed exit status.
pub proof fn lemma_status_in_failure_message(code: i32)
    ensures
        is_substring(
            int_dec(code as int),
            spec_message(&LauncherError::ToolExecutionError(Some(code))),
        ),
{
    let prefix = "hdiutil exited with status "@;
    let digits = int_dec(code as int);
    let hay = spec_message(&LauncherError::ToolExecutionError(Some(code)));
    let plen = prefix.len() as int;
    assert(hay.subrange(plen, plen + digits.len()) =~= digits);
}

} // verus!
