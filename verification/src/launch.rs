//! The vault asked for at launch, by double-click or "Open with".
//!
//! Windows and Linux pass the path as a command-line argument; macOS sends it
//! as an event before the page is loaded. Either way the path is left here
//! and the page claims it when it is ready. Reading it consumes it, so that a
//! reload of the page does not reopen the file of the previous launch.
use std::path::PathBuf;

use vstd::prelude::*;
use vstd::string::StrSliceExecFns;

verus! {

/// A filesystem path, carried through without being read.
#[verifier::external_type_specification]
#[verifier::external_body]
pub struct ExPathBuf(PathBuf);

/// The path that `PathBuf::from` builds from a string.
pub uninterp spec fn path_of(text: Seq<char>) -> PathBuf;

/// The text that `Path::to_string_lossy` gives for a path: its characters,
/// with any part that is not Unicode replaced by U+FFFD.
pub uninterp spec fn path_display(path: PathBuf) -> Seq<char>;

/// Turns an argument into a path with `PathBuf::from`.
///
/// Claimed: the path is the one built from the argument's text, and since
/// that text is Unicode, displaying the path gives the text back.
#[verifier::external_body]
pub(crate) fn path_from(text: String) -> (path: PathBuf)
    ensures
        path == path_of(text@),
        path_display(path) == text@,
{
    PathBuf::from(text)
}

/// A path waiting to be claimed by the page.
pub struct Pending {
    slot: Option<PathBuf>,
}

impl View for Pending {
    type V = Option<PathBuf>;

    closed spec fn view(&self) -> Option<PathBuf> {
        self.slot
    }
}

impl Default for Pending {
    /// Nothing waits at first.
    fn default() -> (p: Pending)
        ensures
            p@ is None,
    {
        Pending { slot: None }
    }
}

impl Pending {
    /// Leaves a path, replacing the one that was waiting, if any: when two
    /// vaults are opened in quick succession, the last one expresses the
    /// user's intent.
    pub fn set(&mut self, path: PathBuf)
        ensures
            final(self)@ == Some(path),
    {
        self.slot = Some(path);
    }

    /// Removes and returns the waiting path, if there is one.
    pub fn take(&mut self) -> (res: Option<PathBuf>)
        ensures
            res == old(self)@,
            final(self)@ is None,
    {
        self.slot.take()
    }
}

/// An argument that can name a vault: not empty, and not an option (an
/// option starts with `-`).
pub open spec fn is_vault_arg(arg: Seq<char>) -> bool {
    arg.len() > 0 && arg[0] != '-'
}

/// Index of the first argument after the program name that can name a vault.
pub open spec fn first_vault_arg(args: Seq<Seq<char>>, i: int) -> bool {
    &&& 1 <= i < args.len()
    &&& is_vault_arg(args[i])
    &&& forall|j: int| 1 <= j < i ==> !is_vault_arg(#[trigger] args[j])
}

/// Extracts the vault path from the launch arguments.
///
/// The first argument is the program itself, and anything that starts with
/// `-` is an option: web views and desktop environments sometimes add some.
/// The first remaining non-empty argument is kept. No extension check: the
/// opening decides whether the file is a vault.
pub fn from_args(args: Vec<String>) -> (res: Option<PathBuf>)
    ensures
        res is None <==> forall|i: int| 1 <= i < args@.len() ==> !is_vault_arg(#[trigger] args@[i]@),
        res matches Some(path) ==> exists|i: int|
            first_vault_arg(args@.map_values(|a: String| a@), i) && path == path_of(
                #[trigger] args@[i]@,
            ),
{
    let ghost texts = args@.map_values(|a: String| a@);
    let mut i: usize = 1;
    while i < args.len()
        invariant
            1 <= i <= args@.len() || args@.len() == 0,
            texts == args@.map_values(|a: String| a@),
            forall|j: int| 1 <= j < i ==> !is_vault_arg(#[trigger] args@[j]@),
        decreases args.len() - i,
    {
        let arg = args[i].as_str();
        if !arg.is_empty() && arg.get_char(0) != '-' {
            assert(first_vault_arg(texts, i as int));
            return Some(path_from(args[i].clone()));
        }
        i = i + 1;
    }
    None
}

/// An argument is an option only when its first character is `-`: the first
/// argument after the program name that is not empty and does not start with
/// `-` is the one chosen, whatever hyphens it holds further on, and an
/// argument that starts with `-` is never chosen.
pub proof fn lemma_only_a_leading_dash_marks_an_option(args: Seq<Seq<char>>, i: int)
    requires
        1 <= i < args.len(),
    ensures
        args[i].len() > 0 && args[i][0] != '-' && (forall|j: int|
            1 <= j < i ==> args[j].len() == 0 || args[j][0] == '-') ==> first_vault_arg(args, i),
        args[i].len() > 0 && args[i][0] == '-' ==> !first_vault_arg(args, i),
        args[i].len() == 0 ==> !first_vault_arg(args, i),
        first_vault_arg(args, i) ==> forall|k: int| #[trigger]
            first_vault_arg(args, k) ==> k == i,
{
    assert forall|k: int| first_vault_arg(args, i) && #[trigger] first_vault_arg(args, k) implies k
        == i by {
        if k < i {
            assert(!is_vault_arg(args[k]));
        } else if k > i {
            assert(!is_vault_arg(args[i]));
        }
    }
}

} // verus!
