//! The ignore-list updater: appends the packages-directory entry unless it is
//! already present. This is a plain substring-containment check, not an
//! ignore-pattern interpreter: a line that contains the token only as part of
//! some other path is treated as already covering the target — a known,
//! accepted limitation.
use vstd::prelude::*;

use crate::text::{contains_seq, occurs_at, str_contains};

verus! {

/// The ignore-list contents after one update: unchanged when the token
/// already occurs somewhere, else with a newline and the entry appended.
pub open spec fn gitignore_updated(contents: Seq<char>) -> Seq<char> {
    if contains_seq(contents, "wapm_packages"@) {
        contents
    } else {
        contents + "\nwapm_packages"@
    }
}

/// Appends the packages-directory entry to the ignore-list contents unless
/// they already contain it.
pub fn init_gitignore(contents: &str) -> (r: String)
    ensures
        r@ == gitignore_updated(contents@),
{
    if str_contains(contents, "wapm_packages") {
        contents.to_owned()
    } else {
        contents.to_owned().concat("\nwapm_packages")
    }
}

/// Updating an ignore list twice leaves exactly the file one update leaves,
/// whatever it held at the start.
pub proof fn lemma_init_gitignore_idempotent(contents: Seq<char>)
    ensures
        gitignore_updated(gitignore_updated(contents)) == gitignore_updated(contents),
{
    if !contains_seq(contents, "wapm_packages"@) {
        let c2 = contents + "\nwapm_packages"@;
        reveal_strlit("wapm_packages");
        reveal_strlit("\nwapm_packages");
        let at = contents.len() as int + 1;
        assert(c2.subrange(at, at + "wapm_packages"@.len()) =~= "wapm_packages"@);
        assert(occurs_at(c2, "wapm_packages"@, at));
    }
}

} // verus!
