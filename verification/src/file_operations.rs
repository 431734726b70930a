//! The staged filesystem-mutation engine.
//!
//! A `FileOperations` value decouples the decision of what filesystem
//! mutations to perform from their execution: mutations are appended to an
//! ordered log, which can be inspected and tested, and are executed only
//! when the batch is committed.

use vstd::prelude::*;

use crate::fs_ops;
use crate::paths::{join_paths, path_concat};

verus! {

/// A staged filesystem mutation: recorded when appended, executed only by
/// [`FileOperations::commit`]. Immutable once appended.
#[derive(Debug)]
pub enum Op {
    /// Initialize a version-control repository at the path.
    GitInit(String),
    /// Create a symbolic link at the second path pointing at the first.
    Link(String, String),
}

/// The mathematical value of an [`Op`]: the same variants over character
/// sequences.
pub enum OpView {
    GitInit(Seq<char>),
    Link(Seq<char>, Seq<char>),
}

impl View for Op {
    type V = OpView;

    open spec fn view(&self) -> OpView {
        match self {
            Op::GitInit(p) => OpView::GitInit(p@),
            Op::Link(s, d) => OpView::Link(s@, d@),
        }
    }
}

impl DeepView for Op {
    type V = OpView;

    open spec fn deep_view(&self) -> OpView {
        self@
    }
}

impl PartialEq for Op {
    fn eq(&self, other: &Op) -> (r: bool) {
        match (self, other) {
            (Op::GitInit(a), Op::GitInit(b)) => *a == *b,
            (Op::Link(s1, d1), Op::Link(s2, d2)) => *s1 == *s2 && *d1 == *d2,
            _ => false,
        }
    }
}

impl vstd::std_specs::cmp::PartialEqSpecImpl for Op {
    open spec fn obeys_eq_spec() -> bool {
        true
    }

    open spec fn eq_spec(&self, other: &Op) -> bool {
        match (self, other) {
            (Op::GitInit(a), Op::GitInit(b)) => a@ == b@,
            (Op::Link(s1, d1), Op::Link(s2, d2)) => s1@ == s2@ && d1@ == d2@,
            _ => false,
        }
    }
}

/// Why a staged operation failed when it was executed.
#[derive(Copy, Clone, PartialEq, Eq, Debug)]
pub enum OpError {
    /// Repository initialization failed.
    GitInitFailed,
    /// The link's source path did not exist when the link was attempted.
    SourceDoesNotExist,
    /// The symbolic link could not be created.
    LinkFailed,
}

/// Batch independence: an append leaves every previously staged operation
/// in place, in its position, and adds exactly one operation at the end.
/// `link` and `create_git_repo` ensure their log relates to the old one
/// this way, so after any number of appends the log holds exactly the
/// appended operations, in append order, and nothing has run: only
/// `commit` touches the disk.
pub proof fn lemma_append_is_batch_independent(before: Seq<OpView>, after: Seq<OpView>, op: OpView)
    requires
        after == before.push(op),
    ensures
        after.len() == before.len() + 1,
        forall|i: int| 0 <= i < before.len() ==> after[i] == before[i],
        after.last() == op,
{
}

/// An ordered, append-only log of staged filesystem mutations. Paths handed
/// to the append methods are resolved against `base_path`; nothing touches
/// the disk until [`FileOperations::commit`].
#[derive(Debug)]
pub struct FileOperations {
    pub base_path: String,
    pub operations: Vec<Op>,
}

impl FileOperations {
    /// The staged operations as mathematical values, in append order.
    pub open spec fn ops(&self) -> Seq<OpView> {
        self.operations.deep_view()
    }

    /// A fresh, empty batch rooted at `base_path`.
    pub fn rooted_at(base_path: &str) -> (f: FileOperations)
        ensures
            f.base_path@ == base_path@,
            f.ops() == Seq::<OpView>::empty(),
    {
        let f = FileOperations { base_path: base_path.to_owned(), operations: Vec::new() };
        proof {
            assert(f.ops() =~= Seq::<OpView>::empty());
        }
        f
    }

    /// Appends a `Link(source, destination)` request, each path resolved
    /// against the base path. A pure append: no path is checked or touched.
    pub fn link(&mut self, source: &str, destination: &str)
        ensures
            final(self).base_path@ == old(self).base_path@,
            final(self).ops() == old(self).ops().push(
                OpView::Link(
                    path_concat(old(self).base_path@, source@),
                    path_concat(old(self).base_path@, destination@),
                ),
            ),
    {
        let s = join_paths(self.base_path.as_str(), source);
        let d = join_paths(self.base_path.as_str(), destination);
        self.operations.push(Op::Link(s, d));
        proof {
            assert(self.ops() =~= old(self).ops().push(
                OpView::Link(
                    path_concat(old(self).base_path@, source@),
                    path_concat(old(self).base_path@, destination@),
                ),
            ));
        }
    }

    /// Appends a `GitInit(path)` request, the path resolved against the base
    /// path. A pure append: no path is checked or touched.
    pub fn create_git_repo(&mut self, path: &str)
        ensures
            final(self).base_path@ == old(self).base_path@,
            final(self).ops() == old(self).ops().push(
                OpView::GitInit(path_concat(old(self).base_path@, path@)),
            ),
    {
        let p = join_paths(self.base_path.as_str(), path);
        self.operations.push(Op::GitInit(p));
        proof {
            assert(self.ops() =~= old(self).ops().push(
                OpView::GitInit(path_concat(old(self).base_path@, path@)),
            ));
        }
    }

    /// Whether `outcome` is a result that executing `op` can report: a
    /// success, or a failure reason belonging to the operation's kind.
    pub open spec fn outcome_for(op: OpView, outcome: Result<(), OpError>) -> bool {
        match op {
            OpView::GitInit(_) => outcome == Ok::<(), OpError>(()) || outcome == Err::<
                (),
                OpError,
            >(OpError::GitInitFailed),
            OpView::Link(_, _) => outcome == Ok::<(), OpError>(()) || outcome == Err::<
                (),
                OpError,
            >(OpError::SourceDoesNotExist) || outcome == Err::<(), OpError>(OpError::LinkFailed),
        }
    }

    /// Executes every staged operation against the real filesystem, in
    /// append order, and reports one outcome per operation, in that same
    /// order. Execution is best effort: a failure is recorded and the rest
    /// of the batch still runs, and nothing already executed is rolled
    /// back. Taking the log by value spends it: a batch cannot be committed
    /// twice.
    ///
    /// A `GitInit` initializes a repository at its path, creating the
    /// directory (and missing parents) if absent. A `Link` fails if its
    /// source does not exist, if the destination's parent directory does
    /// not exist, or if the destination already exists.
    pub fn commit(self) -> (results: Vec<Result<(), OpError>>)
        ensures
            results@.len() == self.ops().len(),
            forall|i: int|
                0 <= i < results@.len() ==> Self::outcome_for(
                    self.ops()[i],
                    #[trigger] results@[i],
                ),
    {
        let mut results: Vec<Result<(), OpError>> = Vec::new();
        let mut i: usize = 0;
        while i < self.operations.len()
            invariant
                i <= self.operations.len(),
                results@.len() == i,
                forall|j: int|
                    0 <= j < i ==> Self::outcome_for(self.ops()[j], #[trigger] results@[j]),
            decreases self.operations.len() - i,
        {
            let op = &self.operations[i];
            let outcome: Result<(), OpError> = match op {
                Op::GitInit(path) => if fs_ops::git_init_at(path.as_str()) {
                    Ok(())
                } else {
                    Err(OpError::GitInitFailed)
                },
                Op::Link(source, destination) => {
                    if !fs_ops::path_exists(source.as_str()) {
                        Err(OpError::SourceDoesNotExist)
                    } else {
                        match fs_ops::symlink_at(source.as_str(), destination.as_str()) {
                            Ok(()) => Ok(()),
                            Err(_) => Err(OpError::LinkFailed),
                        }
                    }
                },
            };
            proof {
                assert(Self::outcome_for(self.ops()[i as int], outcome));
            }
            results.push(outcome);
            i += 1;
        }
        results
    }
}

} // verus!
