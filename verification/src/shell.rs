//! Shell identity, path resolution and link planning.
//!
//! A shell is a named collection of configuration files stored under
//! `<root>/shells/<name>`. Activating a shell means creating, for every file
//! in that directory tree, a symbolic link at the corresponding path under
//! the user's home directory. This module resolves the paths and plans the
//! link operations; it performs no mutation itself.

use vstd::prelude::*;
use vstd::string::*;

use crate::file_operations::{FileOperations, OpView};
use crate::fs_ops;
use crate::paths::{join_paths, path_concat, strict_under};

verus! {

/// One entry found while walking a shell's storage directory: its path and
/// whether it is a directory.
#[derive(Debug)]
pub struct WalkEntry {
    pub path: String,
    pub is_dir: bool,
}

/// A legal shell name: non-empty, without path separators, and not a `..`
/// segment, so the storage directory it resolves to can never escape the
/// installation root.
pub open spec fn valid_shell_name(name: Seq<char>) -> bool {
    &&& name.len() > 0
    &&& (forall|i: int| 0 <= i < name.len() ==> name[i] != '/')
    &&& name != seq!['.', '.']
}

/// Decides `valid_shell_name`, so unverified callers can establish it
/// before constructing shells or planning links.
pub fn is_valid_shell_name(name: &str) -> (r: bool)
    ensures
        r == valid_shell_name(name@),
{
    let n = name.unicode_len();
    if n == 0 {
        return false;
    }
    let mut i: usize = 0;
    while i < n
        invariant
            i <= n,
            n == name@.len(),
            n > 0,
            forall|j: int| 0 <= j < i ==> name@[j] != '/',
        decreases n - i,
    {
        if name.get_char(i) == '/' {
            return false;
        }
        i += 1;
    }
    if n == 2 && name.get_char(0) == '.' && name.get_char(1) == '.' {
        proof {
            assert(name@ =~= seq!['.', '.']);
        }
        return false;
    }
    proof {
        if name@ == seq!['.', '.'] {
            assert(name@.len() == 2);
            assert(name@[0] == '.');
            assert(name@[1] == '.');
        }
    }
    true
}

/// The storage directory of the shell called `name` under the installation
/// root `root`: `root/"shells"/name`.
pub open spec fn shell_storage(root: Seq<char>, name: Seq<char>) -> Seq<char> {
    path_concat(path_concat(root, "shells"@), name)
}

/// For a legal name, the resolved storage directory is non-empty and does
/// not end in a separator, whatever the root.
pub proof fn lemma_storage_ends_like_name(root: Seq<char>, name: Seq<char>)
    requires
        valid_shell_name(name),
    ensures
        shell_storage(root, name).len() > 0,
        shell_storage(root, name)[shell_storage(root, name).len() - 1] == name[name.len() - 1],
        shell_storage(root, name)[shell_storage(root, name).len() - 1] != '/',
{
    assert(name[name.len() - 1] != '/');
    assert(name[0] != '/');
}

/// The defensive invariant of shell naming: for a legal name, the storage
/// directory is a strict descendant of the installation root, so no shell
/// can escape it.
pub proof fn lemma_storage_strictly_under_root(root: Seq<char>, name: Seq<char>)
    requires
        valid_shell_name(name),
        root.len() > 0,
        root[root.len() - 1] != '/',
    ensures
        strict_under(shell_storage(root, name), root),
{
    reveal_strlit("shells");
    let shells_dir = path_concat(root, "shells"@);
    assert(shells_dir == root + seq!['/'] + "shells"@);
    assert(shells_dir[shells_dir.len() - 1] != '/');
    assert(name[0] != '/');
    let storage = shell_storage(root, name);
    assert(storage == shells_dir + seq!['/'] + name);
    assert(storage.subrange(0, root.len() as int) =~= root);
}

/// The operation that activating the entry at `entry_path` stages: a link
/// from the entry to the same relative path under `home`, both resolved
/// against the batch's base path, the storage directory.
pub open spec fn planned_link(storage: Seq<char>, home: Seq<char>, entry_path: Seq<char>) -> OpView {
    OpView::Link(
        path_concat(storage, entry_path),
        path_concat(storage, path_concat(home, entry_path.skip(storage.len() as int + 1))),
    )
}

/// The link plan for the walked entries, in walk order: one `Link` per
/// entry, except that the storage root itself and directories stage
/// nothing.
pub open spec fn link_plan(storage: Seq<char>, home: Seq<char>, entries: Seq<WalkEntry>) -> Seq<
    OpView,
>
    decreases entries.len(),
{
    if entries.len() == 0 {
        Seq::empty()
    } else {
        let rest = link_plan(storage, home, entries.drop_last());
        let e = entries.last();
        if e.path@ == storage || e.is_dir {
            rest
        } else {
            rest.push(planned_link(storage, home, e.path@))
        }
    }
}

/// Link-plan completeness: the plan holds exactly one `Link` for each
/// walked entry that is a file other than the storage root, in walk order,
/// and nothing at all for the storage root or for directories.
pub proof fn lemma_link_plan_complete(storage: Seq<char>, home: Seq<char>, entries: Seq<WalkEntry>)
    ensures
        link_plan(storage, home, entries) == entries.filter(
            |e: WalkEntry| e.path@ != storage && !e.is_dir,
        ).map_values(|e: WalkEntry| planned_link(storage, home, e.path@)),
    decreases entries.len(),
{
    reveal(Seq::filter);
    let pred = |e: WalkEntry| e.path@ != storage && !e.is_dir;
    let f = |e: WalkEntry| planned_link(storage, home, e.path@);
    if entries.len() == 0 {
        assert(link_plan(storage, home, entries) =~= entries.filter(pred).map_values(f));
    } else {
        let rest = entries.drop_last();
        lemma_link_plan_complete(storage, home, rest);
        let e = entries.last();
        if pred(e) {
            assert(entries.filter(pred) == rest.filter(pred).push(e));
            assert(rest.filter(pred).push(e).map_values(f) =~= rest.filter(pred).map_values(
                f,
            ).push(f(e)));
        } else {
            assert(entries.filter(pred) == rest.filter(pred));
        }
    }
}

/// Builds the link plan for `entries`, each of which must be the storage
/// root itself or a strict descendant of it: a fresh batch rooted at
/// `storage` holding exactly `link_plan(storage, home, entries)`.
pub fn plan_links(storage: &str, home: &str, entries: &Vec<WalkEntry>) -> (f: FileOperations)
    requires
        forall|i: int|
            0 <= i < entries@.len() ==> (#[trigger] entries@[i].path@) == storage@ || strict_under(
                entries@[i].path@,
                storage@,
            ),
    ensures
        f.base_path@ == storage@,
        f.ops() == link_plan(storage@, home@, entries@),
{
    let storage_len = storage.unicode_len();
    let mut file_ops = FileOperations::rooted_at(storage);
    let mut i: usize = 0;
    while i < entries.len()
        invariant
            i <= entries@.len(),
            storage_len == storage@.len(),
            file_ops.base_path@ == storage@,
            file_ops.ops() == link_plan(storage@, home@, entries@.take(i as int)),
            forall|k: int|
                0 <= k < entries@.len() ==> (#[trigger] entries@[k].path@) == storage@
                    || strict_under(entries@[k].path@, storage@),
        decreases entries@.len() - i,
    {
        let e = &entries[i];
        let e_len = e.path.unicode_len();
        proof {
            assert(entries@.take(i + 1).drop_last() =~= entries@.take(i as int));
            assert(entries@.take(i + 1).last() == entries@[i as int]);
        }
        if e_len > storage_len && !e.is_dir {
            proof {
                assert(strict_under(e.path@, storage@));
            }
            let rel = e.path.substring_char(storage_len + 1, e_len);
            let dest = join_paths(home, rel);
            file_ops.link(e.path.as_str(), dest.as_str());
            proof {
                assert(rel@ == e.path@.skip(storage@.len() as int + 1));
            }
        } else {
            proof {
                assert(e.path@ == storage@ || e.is_dir);
            }
        }
        i += 1;
    }
    proof {
        assert(entries@.take(entries@.len() as int) =~= entries@);
    }
    file_ops
}

/// Why a link plan could not be produced.
#[derive(Copy, Clone, PartialEq, Eq, Debug)]
pub enum PlanError {
    /// The walk over the shell's storage directory failed.
    WalkFailed,
}

/// A named shell under an installation root. Construction stores the name
/// unvalidated; legality of the name (`valid_shell_name`) is a documented
/// precondition of the operations that walk the disk.
#[derive(Debug)]
pub struct Shell {
    pub name: String,
    pub root_path: String,
}

impl Shell {
    /// The storage directory this shell resolves to.
    pub open spec fn storage(&self) -> Seq<char> {
        shell_storage(self.root_path@, self.name@)
    }

    /// A shell called `name` under the installation root `root_path`. Pure
    /// construction: no validation, no disk access.
    pub fn new(name: &str, root_path: &str) -> (s: Shell)
        ensures
            s.name@ == name@,
            s.root_path@ == root_path@,
    {
        Shell { name: name.to_owned(), root_path: root_path.to_owned() }
    }

    /// The shell's storage directory: `root_path/"shells"/name`.
    pub fn root_path(&self) -> (r: String)
        ensures
            r@ == self.storage(),
    {
        let shells = join_paths(self.root_path.as_str(), "shells");
        join_paths(shells.as_str(), self.name.as_str())
    }

    /// The path of `filename` inside the shell's storage directory; the
    /// empty name resolves to the storage directory itself.
    pub fn path_for(&self, filename: &str) -> (r: String)
        ensures
            r@ == path_concat(self.storage(), filename@),
    {
        let root = self.root_path();
        join_paths(root.as_str(), filename)
    }

    /// Plans the activation of this shell: walks the storage directory and
    /// stages, for every file found, one link to the same relative path
    /// under `home`. The storage root itself and directories stage nothing.
    /// Returns the batch without executing anything; fails only if the walk
    /// over the storage directory fails.
    pub fn create_links(&self, home: &str) -> (r: Result<FileOperations, PlanError>)
        requires
            valid_shell_name(self.name@),
        ensures
            r matches Ok(f) ==> {
                &&& f.base_path@ == self.storage()
                &&& exists|es: Seq<WalkEntry>|
                    {
                        &&& (forall|i: int|
                            0 <= i < es.len() ==> (#[trigger] es[i].path@) == self.storage()
                                || strict_under(es[i].path@, self.storage()))
                        &&& f.ops() == link_plan(self.storage(), home@, es)
                    }
            },
    {
        let storage = self.root_path();
        proof {
            lemma_storage_ends_like_name(self.root_path@, self.name@);
        }
        match fs_ops::walk_sorted(storage.as_str()) {
            Some(entries) => {
                let f = plan_links(storage.as_str(), home, &entries);
                proof {
                    let es = entries@;
                    assert((forall|i: int|
                        0 <= i < es.len() ==> (#[trigger] es[i].path@) == self.storage()
                            || strict_under(es[i].path@, self.storage())) && f.ops() == link_plan(
                        self.storage(),
                        home@,
                        es,
                    ));
                }
                Ok(f)
            },
            None => Err(PlanError::WalkFailed),
        }
    }
}

/// Path-resolution determinism: the storage directory is a function of the
/// shell's name and root alone, and resolving the empty relative path
/// yields the storage directory itself.
pub proof fn lemma_path_resolution_deterministic(a: Shell, b: Shell)
    requires
        a.name@ == b.name@,
        a.root_path@ == b.root_path@,
    ensures
        a.storage() == b.storage(),
        path_concat(a.storage(), Seq::<char>::empty()) == a.storage(),
{
}

} // verus!
