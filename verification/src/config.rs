//! The configuration store the orchestration layer consumes.
//!
//! Configuration is plain data here: the installation root, the shells the
//! user has, and which of them is current. How it is persisted (file
//! format, location) is no concern of the core; a surrounding program loads
//! one of these values, hands it in, and saves it back when done.

use vstd::prelude::*;

use crate::hermit::Error;
use crate::paths::{join_paths, path_concat};

verus! {

/// The stored configuration: the installation root, the names of the
/// shells that exist, and the name of the current one.
#[derive(Debug, Clone)]
pub struct Config {
    pub root_path: String,
    pub allowed_shell_names: Vec<String>,
    pub current_shell: String,
}

impl Config {
    /// The configured shell names, as character sequences.
    pub open spec fn allowed(&self) -> Seq<Seq<char>> {
        self.allowed_shell_names.deep_view()
    }

    /// Whether a shell called `name` is configured.
    pub open spec fn has_shell(&self, name: Seq<char>) -> bool {
        self.allowed().contains(name)
    }

    /// The name of the current shell.
    pub fn current_shell_name(&self) -> (r: Option<String>)
        ensures
            r matches Some(n) && n@ == self.current_shell@,
    {
        Some(self.current_shell.clone())
    }

    /// Whether a shell called `name` exists in the configuration.
    pub fn does_shell_exist(&self, name: &str) -> (r: bool)
        ensures
            r == self.has_shell(name@),
    {
        let key = name.to_owned();
        let mut i: usize = 0;
        while i < self.allowed_shell_names.len()
            invariant
                i <= self.allowed_shell_names@.len(),
                key@ == name@,
                forall|j: int| 0 <= j < i ==> self.allowed_shell_names@[j]@ != name@,
            decreases self.allowed_shell_names@.len() - i,
        {
            let s = &self.allowed_shell_names[i];
            if *s == key {
                proof {
                    assert(self.allowed()[i as int] == name@);
                }
                return true;
            }
            i += 1;
        }
        proof {
            assert(forall|j: int|
                0 <= j < self.allowed().len() ==> #[trigger] self.allowed()[j] != name@);
        }
        false
    }

    /// Makes `name` the current shell and nothing else. The store is plain
    /// data in memory, so the update cannot fail.
    pub fn set_current_shell_name(&mut self, name: &str) -> (r: Result<(), Error>)
        ensures
            r == Ok::<(), Error>(()),
            final(self).current_shell@ == name@,
            final(self).root_path == old(self).root_path,
            final(self).allowed_shell_names == old(self).allowed_shell_names,
    {
        self.current_shell = name.to_owned();
        Ok(())
    }

    /// The directory that holds every shell's storage directory:
    /// `root_path/"shells"`.
    pub fn shell_root_path(&self) -> (r: String)
        ensures
            r@ == path_concat(self.root_path@, "shells"@),
    {
        join_paths(self.root_path.as_str(), "shells")
    }
}

} // verus!
