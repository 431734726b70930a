//! The orchestration layer: shell lifecycle commands over a configuration.
//!
//! A `Hermit` owns its configuration outright, so mutating it needs no
//! coordination with other holders: the type system rules concurrent
//! readers out.

use vstd::prelude::*;

use crate::config::Config;
use crate::file_operations::{FileOperations, OpView};
use crate::fs_ops;
use crate::paths::{join_paths, path_concat};
use crate::shell::{shell_storage, Shell};

verus! {

/// A failure of a shell lifecycle command.
#[derive(Copy, Clone, PartialEq, Eq, Debug)]
pub enum Error {
    /// The named shell is absent from the configuration.
    ShellDoesNotExist,
}

impl From<std::io::Error> for Error {
    /// Every input/output failure surfaces as the one lifecycle error.
    fn from(_err: std::io::Error) -> (r: Error) {
        Error::ShellDoesNotExist
    }
}

impl vstd::std_specs::convert::FromSpecImpl<std::io::Error> for Error {
    open spec fn obeys_from_spec() -> bool {
        true
    }

    open spec fn from_spec(_v: std::io::Error) -> Error {
        Error::ShellDoesNotExist
    }
}

/// Sequences shell lifecycle commands over an exclusively owned
/// configuration.
#[derive(Debug)]
pub struct Hermit {
    pub config: Config,
}

impl Hermit {
    pub fn new(config: Config) -> (h: Hermit)
        ensures
            h.config == config,
    {
        Hermit { config }
    }

    /// The currently selected shell, rooted at the configured installation
    /// root.
    pub fn current_shell(&self) -> (r: Option<Shell>)
        ensures
            r matches Some(s) && s.name@ == self.config.current_shell@ && s.root_path@
                == self.config.root_path@,
    {
        match self.config.current_shell_name() {
            Some(name) => Some(Shell::new(name.as_str(), self.config.root_path.as_str())),
            None => None,
        }
    }

    /// Switches the current shell. When no configured shell has the given
    /// name, fails with `ShellDoesNotExist` and leaves everything
    /// unchanged; otherwise the name becomes current and nothing else
    /// changes.
    pub fn set_current_shell(&mut self, name: &str) -> (r: Result<(), Error>)
        ensures
            old(self).config.has_shell(name@) ==> {
                &&& r == Ok::<(), Error>(())
                &&& final(self).config.current_shell@ == name@
                &&& final(self).config.root_path == old(self).config.root_path
                &&& final(self).config.allowed_shell_names == old(self).config.allowed_shell_names
            },
            !old(self).config.has_shell(name@) ==> r == Err::<(), Error>(Error::ShellDoesNotExist)
                && *final(self) == *old(self),
    {
        if self.config.does_shell_exist(name) {
            self.config.set_current_shell_name(name)
        } else {
            Err(Error::ShellDoesNotExist)
        }
    }

    /// Stages the creation of a new shell: appends to the batch exactly one
    /// `GitInit` of the shell's storage directory, resolved against the
    /// batch's base path. Nothing touches the disk until the batch is
    /// committed.
    pub fn init_shell(&self, file_ops: &mut FileOperations, name: &str)
        ensures
            final(file_ops).base_path@ == old(file_ops).base_path@,
            final(file_ops).ops() == old(file_ops).ops().push(
                OpView::GitInit(
                    path_concat(
                        old(file_ops).base_path@,
                        shell_storage(self.config.root_path@, name@),
                    ),
                ),
            ),
    {
        let new_shell = Shell::new(name, self.config.root_path.as_str());
        let path = new_shell.root_path();
        file_ops.create_git_repo(path.as_str());
    }

    /// Removes the named shell's storage directory, recursively and at
    /// once. Fails with `ShellDoesNotExist` when the shell is absent from
    /// the configuration — the disk is not touched then — and also when
    /// the removal itself fails. Never stages anything in the batch.
    pub fn nuke_shell(&self, file_ops: &mut FileOperations, name: &str) -> (r: Result<(), Error>)
        ensures
            *final(file_ops) == *old(file_ops),
            !self.config.has_shell(name@) ==> r == Err::<(), Error>(Error::ShellDoesNotExist),
            self.config.has_shell(name@) ==> r == Ok::<(), Error>(()) || r == Err::<(), Error>(
                Error::ShellDoesNotExist,
            ),
    {
        if !self.config.does_shell_exist(name) {
            return Err(Error::ShellDoesNotExist);
        }
        let shells_dir = self.config.shell_root_path();
        let shell_path = join_paths(shells_dir.as_str(), name);
        match fs_ops::remove_dir_tree(shell_path.as_str()) {
            Ok(()) => Ok(()),
            Err(e) => Err(Error::from(e)),
        }
    }
}

} // verus!
