//! Association of the `.coocrypt` file type with the application.
//!
//! Installers declare the association; the application also registers it for
//! the current user at start-up (Windows only), for the cases an installer
//! does not cover. This module holds what that registration decides and
//! writes; the registry calls themselves belong to the caller.
use vstd::prelude::*;
use vstd::string::StringExecFns;

verus! {

/// File-type identifier, the registry key of the association. It must not
/// change: a new one would leave the old entry orphaned.
pub const PROG_ID: &'static str = "CoopaCrypt.Vault";

/// The extension of vault files.
pub const EXT: &'static str = ".coocrypt";

/// The content type declared for vault files.
pub const MIME: &'static str = "application/x-coocrypt";

/// Label shown in the "Type" column of the file explorer.
pub const LABEL: &'static str = "Coffre CoopaCrypt";

/// Outcome of a registration attempt.
#[derive(Debug, Clone, Copy, PartialEq, Eq)]
pub enum Outcome {
    /// The keys were written.
    Registered,
    /// The association already pointed at this executable: nothing was
    /// touched.
    AlreadyCurrent,
    /// Platform without a registry, or development build.
    Skipped,
}

/// The command that opens a vault with the executable: `"exe" "%1"`.
pub open spec fn open_command_text(exe: Seq<char>) -> Seq<char> {
    "\""@ + exe + "\" \"%1\""@
}

/// The icon reference of the executable: `"exe",0`.
pub open spec fn default_icon_text(exe: Seq<char>) -> Seq<char> {
    "\""@ + exe + "\",0"@
}

/// The command registered to open a vault with this executable.
pub fn open_command(exe: &str) -> (res: String)
    ensures
        res@ == open_command_text(exe@),
{
    let mut res = String::from_str("\"");
    res.append(exe);
    res.append("\" \"%1\"");
    res
}

/// The icon registered for vault files.
pub fn default_icon(exe: &str) -> (res: String)
    ensures
        res@ == default_icon_text(exe@),
{
    let mut res = String::from_str("\"");
    res.append(exe);
    res.append("\",0");
    res
}

/// Decides the registration of the association for the executable `exe`.
///
/// Nothing is written, and the outcome is `Skipped`, in a development build
/// that is not forced to register (the association would point at a build
/// directory) and on a platform without a registry (macOS and Linux read the
/// association from the bundle or the `.desktop` file). Otherwise nothing is
/// written when the open command currently registered already launches this
/// executable, and the keys are (re)written when it does not: without this
/// check, each start would rewrite the same values and notify the explorer
/// for nothing.
pub fn ensure_registered(
    has_registry: bool,
    development_build: bool,
    forced: bool,
    current_command: Option<String>,
    exe: &str,
) -> (res: Outcome)
    ensures
        res == (if development_build && !forced || !has_registry {
            Outcome::Skipped
        } else if current_command matches Some(c) && c@ == open_command_text(exe@) {
            Outcome::AlreadyCurrent
        } else {
            Outcome::Registered
        }),
{
    if registration_skipped(development_build, forced) || !has_registry {
        return Outcome::Skipped;
    }
    let command = open_command(exe);
    match current_command {
        Some(current) => if current == command {
            Outcome::AlreadyCurrent
        } else {
            Outcome::Registered
        },
        None => Outcome::Registered,
    }
}

/// Whether registration is skipped: in a development build it would point
/// at a build directory, unless explicitly forced.
pub fn registration_skipped(development_build: bool, forced: bool) -> (res: bool)
    ensures
        res == (development_build && !forced),
{
    development_build && !forced
}

} // verus!
