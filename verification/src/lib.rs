//! A manager for named, swappable collections of user configuration files
//! ("shells"). Each shell is stored under an installation root and is
//! activated by creating symbolic links in the user's home directory that
//! mirror the shell's directory tree.
//!
//! The heart of the library is a staged filesystem-mutation engine
//! ([`file_operations::FileOperations`]): mutations are recorded as an
//! ordered log and executed only on `commit`, so a plan can be inspected
//! before it touches disk. [`shell::Shell`] resolves shell storage paths and
//! plans the link operations; [`hermit::Hermit`] drives the shell lifecycle
//! (create, switch, remove) over a [`config::Config`].

pub mod config;
pub mod file_operations;
pub mod fs_ops;
pub mod hermit;
pub mod paths;
pub mod shell;

pub use config::Config;
pub use file_operations::{FileOperations, Op, OpError};
pub use hermit::{Error, Hermit};
pub use paths::join_paths;
pub use shell::{is_valid_shell_name, PlanError, Shell, WalkEntry};
