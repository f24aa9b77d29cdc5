//! Flash-executor decisions: host OS identity, shell selection, and
//! the rendering of a finished command's result. The process spawn
//! itself is outside work that the caller performs between
//! `SessionState::begin_flash` and `SessionState::finish_flash`.

use vstd::prelude::*;
use vstd::string::StringExecFns;

use crate::text::exit_code_text;
use crate::text::exit_text;
use crate::text::str_eq;

verus! {

/// Host operating-system family, detected once at startup.
#[derive(Clone, Copy, Debug, PartialEq, Eq, Structural)]
pub enum OsKind {
    Unix,
    Windows,
}

/// Failure of the flash executor.
#[derive(Clone, Copy, Debug, PartialEq, Eq, Structural)]
pub enum FlashError {
    /// The host is neither Unix-like nor Windows-like.
    UnsupportedPlatform,
    /// The shell binary itself could not be spawned.
    LaunchFailed,
}

/// Whether `name` names a Unix-like host.
pub open spec fn is_unix_name(name: Seq<char>) -> bool {
    ||| name == "linux"@
    ||| name == "macos"@
    ||| name == "android"@
    ||| name == "ios"@
    ||| name == "freebsd"@
    ||| name == "openbsd"@
    ||| name == "netbsd"@
    ||| name == "dragonfly"@
    ||| name == "solaris"@
}

/// The OS family that a host OS name denotes.
pub open spec fn os_kind_view(name: Seq<char>) -> Option<OsKind> {
    if name == "windows"@ {
        Some(OsKind::Windows)
    } else if is_unix_name(name) {
        Some(OsKind::Unix)
    } else {
        None
    }
}

/// Classifies a host OS name, such as the platform constant a runtime
/// reports, into the closed family used for shell selection.
pub fn os_kind_of(name: &str) -> (r: Option<OsKind>)
    ensures
        r == os_kind_view(name@),
{
    if str_eq(name, "windows") {
        Some(OsKind::Windows)
    } else if str_eq(name, "linux") || str_eq(name, "macos") || str_eq(name, "android") || str_eq(
        name,
        "ios",
    ) || str_eq(name, "freebsd") || str_eq(name, "openbsd") || str_eq(name, "netbsd") || str_eq(
        name,
        "dragonfly",
    ) || str_eq(name, "solaris") {
        Some(OsKind::Unix)
    } else {
        None
    }
}

/// The shell binary for an OS family.
pub open spec fn shell_program(os: OsKind) -> Seq<char> {
    match os {
        OsKind::Unix => "sh"@,
        OsKind::Windows => "cmd"@,
    }
}

/// The flag that hands the shell a command string.
pub open spec fn shell_flag(os: OsKind) -> Seq<char> {
    match os {
        OsKind::Unix => "-c"@,
        OsKind::Windows => "/C"@,
    }
}

/// Selects the shell invocation for `os`: program, flag, and the
/// command handed to the shell, in that order.
pub fn shell_invocation(os: OsKind, command: &str) -> (r: (String, String, String))
    ensures
        r.0@ == shell_program(os),
        r.1@ == shell_flag(os),
        r.2@ == command@,
{
    match os {
        OsKind::Unix => (
            String::from_str("sh"),
            String::from_str("-c"),
            String::from_str(command),
        ),
        OsKind::Windows => (
            String::from_str("cmd"),
            String::from_str("/C"),
            String::from_str(command),
        ),
    }
}

/// What running the flash command produced: the process's exit code
/// (`None` when a signal ended it) and its captured output streams.
pub struct ExecutionResult {
    pub exit_code: Option<i32>,
    pub stdout: String,
    pub stderr: String,
}

/// The status text that renders an execution result: exit code and
/// both output streams, verbatim.
pub open spec fn render_spec(exit_code: Option<i32>, stdout: Seq<char>, stderr: Seq<char>) -> Seq<
    char,
> {
    "exit: "@ + exit_text(exit_code) + ", stdout: "@ + stdout + ", stderr: "@ + stderr
}

/// Renders an execution result as `render_spec` describes.
pub fn render_execution_result(result: &ExecutionResult) -> (r: String)
    ensures
        r@ == render_spec(result.exit_code, result.stdout@, result.stderr@),
{
    let exit = exit_code_text(&result.exit_code);
    String::from_str("exit: ").concat(exit.as_str()).concat(", stdout: ").concat(
        result.stdout.as_str(),
    ).concat(", stderr: ").concat(result.stderr.as_str())
}

} // verus!
