use vstd::prelude::*;

use crate::paths::{mirror_target, mirrored};
use crate::text::{has_prefix, same_text};

verus! {

/// Entries left out of the copied tree: the `LICDIR` and `MANUAL`
/// directories and the `ISO2PKG.DAT` file.
pub open spec fn excluded_from_copy(name: Seq<char>, is_dir: bool) -> bool {
    if is_dir {
        name == "LICDIR"@ || name == "MANUAL"@
    } else {
        name == "ISO2PKG.DAT"@
    }
}

/// Entries that are not decrypted: the `EBOOT.BIN` file.
pub open spec fn excluded_from_decrypt(name: Seq<char>, is_dir: bool) -> bool {
    !is_dir && name == "EBOOT.BIN"@
}

/// The arguments handed to the decryption tool to decrypt `source` into `target`.
pub open spec fn decrypt_args_of(source: Seq<char>, target: Seq<char>) -> Seq<Seq<char>> {
    seq!["-d"@, source, target, "0"@]
}

/// What to do with one entry while copying the installation tree.
#[derive(Debug)]
pub enum CopyAction {
    /// Leave the entry out.
    Skip,
    /// Create this output directory, then copy the entry's own contents.
    CreateDirAndDescend(String),
    /// Copy the file to this output path.
    CopyFile(String),
}

/// What to do with one entry while decrypting the `USRDIR` tree.
#[derive(Debug)]
pub enum DecryptAction {
    /// Leave the entry as it was copied.
    Skip,
    /// Decrypt the entry's own contents.
    Descend,
    /// Run the decryption tool with these arguments.
    RunTool(Vec<String>),
}

/// Whether the copy pass leaves out an entry with this name.
pub fn skipped_in_copy(name: &str, is_dir: bool) -> (r: bool)
    ensures
        r == excluded_from_copy(name@, is_dir),
{
    if is_dir {
        same_text(name, "LICDIR") || same_text(name, "MANUAL")
    } else {
        same_text(name, "ISO2PKG.DAT")
    }
}

/// Whether the decryption pass leaves out an entry with this name.
pub fn skipped_in_decrypt(name: &str, is_dir: bool) -> (r: bool)
    ensures
        r == excluded_from_decrypt(name@, is_dir),
{
    !is_dir && same_text(name, "EBOOT.BIN")
}

/// Decides the copy of the entry at `entry`, named `name`, found under the
/// installation directory `game_dir`. An entry that is not left out is placed
/// at its mirrored location; `None` comes back exactly when such an entry does
/// not lie under `game_dir`.
pub fn copy_action(game_dir: &str, entry: &str, name: &str, is_dir: bool) -> (r: Option<CopyAction>)
    ensures
        excluded_from_copy(name@, is_dir) ==> r == Some(CopyAction::Skip),
        !excluded_from_copy(name@, is_dir) ==> (r is None <==> !has_prefix(entry@, game_dir@)),
        !excluded_from_copy(name@, is_dir) && is_dir ==> (r matches Some(a) ==> (a matches CopyAction::CreateDirAndDescend(t) && t@ == mirrored(game_dir@, entry@))),
        !excluded_from_copy(name@, is_dir) && !is_dir ==> (r matches Some(a) ==> (a matches CopyAction::CopyFile(t) && t@ == mirrored(game_dir@, entry@))),
{
    if skipped_in_copy(name, is_dir) {
        return Some(CopyAction::Skip);
    }
    match mirror_target(game_dir, entry) {
        Some(target) => {
            if is_dir {
                Some(CopyAction::CreateDirAndDescend(target))
            } else {
                Some(CopyAction::CopyFile(target))
            }
        },
        None => None,
    }
}

/// The decryption tool's arguments for the file at `entry`, found under the
/// installation directory `game_dir`: decrypt it onto its mirrored location.
/// Returns `None` exactly when `entry` does not lie under `game_dir`.
pub fn decrypt_file_args(game_dir: &str, entry: &str) -> (r: Option<Vec<String>>)
    ensures
        r is Some <==> has_prefix(entry@, game_dir@),
        r matches Some(args) ==> args.deep_view() == decrypt_args_of(entry@, mirrored(game_dir@, entry@)),
{
    match mirror_target(game_dir, entry) {
        Some(target) => {
            let mut args: Vec<String> = Vec::new();
            args.push(String::from_str("-d"));
            args.push(String::from_str(entry));
            args.push(target);
            args.push(String::from_str("0"));
            assert(args.deep_view() =~= decrypt_args_of(entry@, mirrored(game_dir@, entry@)));
            Some(args)
        },
        None => None,
    }
}

/// Decides the decryption of the entry at `entry`, named `name`, found under
/// the installation directory `game_dir`. Directories are entered; a file that
/// is not left out is handed to the tool. `None` comes back exactly when such
/// a file does not lie under `game_dir`.
pub fn decrypt_action(game_dir: &str, entry: &str, name: &str, is_dir: bool) -> (r: Option<DecryptAction>)
    ensures
        is_dir ==> r == Some(DecryptAction::Descend),
        excluded_from_decrypt(name@, is_dir) ==> r == Some(DecryptAction::Skip),
        !is_dir && !excluded_from_decrypt(name@, is_dir) ==> (r is None <==> !has_prefix(entry@, game_dir@)),
        !is_dir && !excluded_from_decrypt(name@, is_dir) ==> (r matches Some(a) ==> (a matches DecryptAction::RunTool(args) && args.deep_view() == decrypt_args_of(entry@, mirrored(game_dir@, entry@)))),
{
    if is_dir {
        return Some(DecryptAction::Descend);
    }
    if skipped_in_decrypt(name, is_dir) {
        return Some(DecryptAction::Skip);
    }
    match decrypt_file_args(game_dir, entry) {
        Some(args) => Some(DecryptAction::RunTool(args)),
        None => None,
    }
}

} // verus!
