//! Trusted boundary to the real filesystem.
//!
//! Everything here either declares an outside type or wraps a single outside
//! call. The rest of the library only ever sees plain values coming back
//! from these functions and is verified for every value they could return.

use vstd::prelude::*;

use crate::paths::strict_under;
use crate::shell::WalkEntry;

verus! {

#[verifier::external_type_specification]
#[verifier::external_body]
pub struct ExIoError(std::io::Error);

/// Relies on git2::Repository::init: initializes a version-control
/// repository at the given path, creating the directory and any missing
/// parents, and reports whether it succeeded. Success depends on the state
/// of the disk, so nothing is promised of the outcome.
#[verifier::external_body]
pub(crate) fn git_init_at(path: &str) -> (r: bool) {
    match git2::Repository::init(path) {
        Ok(_repo) => true,
        Err(_e) => false,
    }
}

/// Relies on symlink::symlink_auto: creates a symbolic link at `dst`
/// pointing at `src` (on Unix, exactly the symlink syscall). Whether it
/// succeeds depends on the state of the disk, so nothing is promised of
/// the outcome.
#[verifier::external_body]
pub(crate) fn symlink_at(src: &str, dst: &str) -> (r: Result<(), std::io::Error>) {
    symlink::symlink_auto(src, dst)
}

/// Relies on std::path::Path::exists: whether the path names an existing
/// filesystem entity. The answer reflects the disk at call time only, so
/// nothing is promised of it.
#[verifier::external_body]
pub(crate) fn path_exists(p: &str) -> bool {
    std::path::Path::new(p).exists()
}

/// Relies on remove_dir_all::remove_dir_all: recursively removes the
/// directory and everything under it. Whether it succeeds depends on the
/// state of the disk, so nothing is promised of the outcome.
#[verifier::external_body]
pub(crate) fn remove_dir_tree(path: &str) -> (r: Result<(), std::io::Error>) {
    remove_dir_all::remove_dir_all(path)
}

/// Relies on walkdir::WalkDir: the walk yields the root itself and, below
/// it, entries whose paths are formed by joining the root with further
/// non-empty components, so every path other than the root extends it by a
/// `/` and at least one character. `sort_by_file_name` makes the order of
/// the walk deterministic (lexical by name within each directory). Which
/// entries come back depends on the disk, so no more is promised.
#[verifier::external_body]
pub(crate) fn walk_sorted(root: &str) -> (r: Option<Vec<WalkEntry>>)
    requires
        root@.len() > 0,
        root@[root@.len() - 1] != '/',
    ensures
        r matches Some(v) ==> forall|i: int|
            0 <= i < v@.len() ==> (#[trigger] v@[i].path@) == root@ || strict_under(
                v@[i].path@,
                root@,
            ),
{
    let mut out = Vec::new();
    for entry in walkdir::WalkDir::new(root).sort_by_file_name() {
        match entry {
            Ok(e) => out.push(
                WalkEntry {
                    path: e.path().to_string_lossy().into_owned(),
                    is_dir: e.file_type().is_dir(),
                },
            ),
            Err(_err) => return None,
        }
    }
    Some(out)
}

} // verus!
