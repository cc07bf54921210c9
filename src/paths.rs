use vstd::prelude::*;

use crate::text::{has_prefix, starts_with_text};

verus! {

/// The directory into which the converted game is written.
pub open spec fn output_root_text() -> Seq<char> {
    "../../disc/DeS-Converted/PS3_GAME"@
}

/// The external decryption tool, relative to the working directory.
pub open spec fn tool_path_text() -> Seq<char> {
    "./resources/make_npdata.exe"@
}

/// The log file, relative to the working directory.
pub open spec fn log_file_text() -> Seq<char> {
    "./log_fixer.log"@
}

/// Where the entry at `entry` lands in the output tree when the installation
/// lives at `game_dir`: the part of `entry` below `game_dir`, placed under the
/// output root.
pub open spec fn mirrored(game_dir: Seq<char>, entry: Seq<char>) -> Seq<char> {
    output_root_text() + entry.subrange(game_dir.len() as int, entry.len() as int)
}

/// Distinct entries under one installation directory land on distinct output
/// locations, so the output tree mirrors the installation tree.
pub proof fn lemma_mirror_one_to_one(game_dir: Seq<char>, a: Seq<char>, b: Seq<char>)
    requires
        has_prefix(a, game_dir),
        has_prefix(b, game_dir),
        mirrored(game_dir, a) == mirrored(game_dir, b),
    ensures
        a == b,
{
    let n = game_dir.len() as int;
    let k = output_root_text().len() as int;
    let ra = a.subrange(n, a.len() as int);
    let rb = b.subrange(n, b.len() as int);
    assert(ra =~= mirrored(game_dir, a).subrange(k, mirrored(game_dir, a).len() as int));
    assert(rb =~= mirrored(game_dir, b).subrange(k, mirrored(game_dir, b).len() as int));
    assert(a =~= a.subrange(0, n) + ra);
    assert(b =~= b.subrange(0, n) + rb);
}

/// The directory into which the converted game is written.
pub fn output_root() -> (r: &'static str)
    ensures
        r@ == output_root_text(),
{
    "../../disc/DeS-Converted/PS3_GAME"
}

/// The external decryption tool, relative to the working directory.
pub fn tool_path() -> (r: &'static str)
    ensures
        r@ == tool_path_text(),
{
    "./resources/make_npdata.exe"
}

/// The log file, relative to the working directory.
pub fn log_file() -> (r: &'static str)
    ensures
        r@ == log_file_text(),
{
    "./log_fixer.log"
}

/// The output location of `entry`, an entry found under `game_dir`.
/// Returns `None` exactly when `entry` does not begin with `game_dir`.
pub fn mirror_target(game_dir: &str, entry: &str) -> (r: Option<String>)
    ensures
        r is Some <==> has_prefix(entry@, game_dir@),
        r matches Some(t) ==> t@ == mirrored(game_dir@, entry@),
{
    if !starts_with_text(entry, game_dir) {
        return None;
    }
    let rest = entry.substring_char(game_dir.unicode_len(), entry.unicode_len());
    let mut target = String::from_str(output_root());
    target.append(rest);
    Some(target)
}

} // verus!
