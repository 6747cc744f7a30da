//! From a request target to a file inside the root directory.
//!
//! The resolver decides and its caller looks at the disk: each step hands
//! out one query, or the outcome. No path leaves the resolver that does not
//! lie under the canonical root directory.

use vstd::prelude::*;
use vstd::string::*;
use crate::fs::{
    path_result, EntryKind, FilePath, FileSystem, FsAnswer, FsAnswerModel, FsError, FsQuery,
    FsQueryModel,
};
use crate::text::to_chars;

verus! {

/// `target` without one slash at its front and one at its back, where
/// there are such.
pub open spec fn strip_slashes(target: Seq<char>) -> Seq<char> {
    let front = if target.len() > 0 && target[0] == '/' {
        target.skip(1)
    } else {
        target
    };
    if front.len() > 0 && front.last() == '/' {
        front.drop_last()
    } else {
        front
    }
}

/// The name of the document that stands for a directory.
pub open spec fn index_document() -> Seq<char> {
    "index.html"@
}

/// The file that `target` names in the file system `fs`, or why there is
/// none to serve.
///
/// The target, less one slash at either end, is joined onto the root
/// directory and brought into canonical form; an empty target thus names
/// the root directory itself. A failure to do so is the outcome. A
/// canonical form that does not lie under the canonical root is
/// `PermissionDenied`, whatever is there. A regular file is the outcome; a
/// directory stands for the index document in it, if that is a regular
/// file; anything else is `NotFound`.
pub open spec fn resolve(fs: FileSystem, target: Seq<char>) -> Result<Seq<Seq<char>>, FsError> {
    match (fs.canonical)(strip_slashes(target)) {
        Err(e) => Err(e),
        Ok(candidate) => match fs.root {
            Err(e) => Err(e),
            Ok(root) => if !root.is_prefix_of(candidate) {
                Err(FsError::PermissionDenied)
            } else {
                match (fs.kind)(candidate) {
                    EntryKind::File => Ok(candidate),
                    EntryKind::Directory => {
                        let index = candidate.push(index_document());
                        if (fs.kind)(index) == EntryKind::File {
                            Ok(index)
                        } else {
                            Err(FsError::NotFound)
                        }
                    },
                    EntryKind::Other => Err(FsError::NotFound),
                }
            },
        },
    }
}

/// What the resolver is waiting to hear.
#[derive(Debug, Clone, PartialEq, Eq)]
pub enum ResolverState {
    /// The canonical forms of the candidate path and of the root.
    Canonical,
    /// The kind of the entry at the candidate path.
    Target(FilePath),
    /// The kind of the entry at the index document's path.
    Index(FilePath),
}

/// What a [`ResolverState`] stands for.
pub enum ResolverStateModel {
    Canonical,
    Target(Seq<Seq<char>>),
    Index(Seq<Seq<char>>),
}

impl View for ResolverState {
    type V = ResolverStateModel;

    open spec fn view(&self) -> ResolverStateModel {
        match self {
            ResolverState::Canonical => ResolverStateModel::Canonical,
            ResolverState::Target(path) => ResolverStateModel::Target(path@),
            ResolverState::Index(path) => ResolverStateModel::Index(path@),
        }
    }
}

/// One step of a resolution: a query to answer, with the state to resume
/// from, or the outcome.
#[derive(Debug, PartialEq, Eq)]
pub enum Resolution {
    Ask(FsQuery, ResolverState),
    Done(Result<FilePath, FsError>),
}

/// What a [`Resolution`] stands for.
pub enum ResolutionModel {
    Ask(FsQueryModel, ResolverStateModel),
    Done(Result<Seq<Seq<char>>, FsError>),
}

impl View for Resolution {
    type V = ResolutionModel;

    open spec fn view(&self) -> ResolutionModel {
        match self {
            Resolution::Ask(query, state) => ResolutionModel::Ask(query@, state@),
            Resolution::Done(outcome) => ResolutionModel::Done(path_result(*outcome)),
        }
    }
}

/// The first step for `target`: ask for the canonical forms.
pub open spec fn begin(target: Seq<char>) -> ResolutionModel {
    ResolutionModel::Ask(
        FsQueryModel::Canonicalize { relative: strip_slashes(target) },
        ResolverStateModel::Canonical,
    )
}

/// The step that follows when `answer` arrives in `state`. An answer of
/// another kind than the one awaited ends the resolution with `Other`.
pub open spec fn next(state: ResolverStateModel, answer: FsAnswerModel) -> ResolutionModel {
    match (state, answer) {
        (ResolverStateModel::Canonical, FsAnswerModel::Canonical { candidate, root }) => {
            match candidate {
                Err(e) => ResolutionModel::Done(Err(e)),
                Ok(path) => match root {
                    Err(e) => ResolutionModel::Done(Err(e)),
                    Ok(base) => if base.is_prefix_of(path) {
                        ResolutionModel::Ask(
                            FsQueryModel::EntryKind { path },
                            ResolverStateModel::Target(path),
                        )
                    } else {
                        ResolutionModel::Done(Err(FsError::PermissionDenied))
                    },
                },
            }
        },
        (ResolverStateModel::Target(path), FsAnswerModel::Kind(kind)) => match kind {
            EntryKind::File => ResolutionModel::Done(Ok(path)),
            EntryKind::Directory => ResolutionModel::Ask(
                FsQueryModel::EntryKind { path: path.push(index_document()) },
                ResolverStateModel::Index(path.push(index_document())),
            ),
            EntryKind::Other => ResolutionModel::Done(Err(FsError::NotFound)),
        },
        (ResolverStateModel::Index(path), FsAnswerModel::Kind(kind)) => match kind {
            EntryKind::File => ResolutionModel::Done(Ok(path)),
            _ => ResolutionModel::Done(Err(FsError::NotFound)),
        },
        _ => ResolutionModel::Done(Err(FsError::Other)),
    }
}

/// How many more queries a step can lead to, at most.
pub open spec fn queries_left(step: ResolutionModel) -> nat {
    match step {
        ResolutionModel::Done(_) => 0,
        ResolutionModel::Ask(_, ResolverStateModel::Index(_)) => 1,
        ResolutionModel::Ask(_, ResolverStateModel::Target(_)) => 2,
        ResolutionModel::Ask(_, ResolverStateModel::Canonical) => 3,
    }
}

/// The outcome that `step` leads to when `fs` answers every query.
pub open spec fn outcome(fs: FileSystem, step: ResolutionModel) -> Result<Seq<Seq<char>>, FsError>
    decreases queries_left(step),
{
    match step {
        ResolutionModel::Done(result) => result,
        ResolutionModel::Ask(query, state) => outcome(fs, next(state, fs.answer(query))),
    }
}

/// `target` without one slash at its front and one at its back.
pub fn strip(target: &str) -> (relative: String)
    ensures
        relative@ == strip_slashes(target@),
{
    let chars = to_chars(target);
    let n = chars.len();
    let from: usize = if n > 0 && chars[0] == '/' {
        1
    } else {
        0
    };
    let to: usize = if n > from && chars[n - 1] == '/' {
        n - 1
    } else {
        n
    };
    let relative = target.substring_char(from, to);
    proof {
        let front = target@.skip(from as int);
        if front.len() > 0 {
            assert(front.last() == target@[n - 1]);
        }
        assert(relative@ =~= strip_slashes(target@));
    }
    String::from_str(relative)
}

/// Begins to resolve `target`: the first query to answer.
pub fn resolve_uri(target: &str) -> (step: Resolution)
    ensures
        step@ == begin(target@),
{
    Resolution::Ask(FsQuery::Canonicalize { relative: strip(target) }, ResolverState::Canonical)
}

/// Resumes a resolution with the answer to its last query.
pub fn resume(state: ResolverState, answer: FsAnswer) -> (step: Resolution)
    ensures
        step@ == next(state@, answer@),
{
    match (state, answer) {
        (ResolverState::Canonical, FsAnswer::Canonical { candidate, root }) => {
            match candidate {
                Err(e) => Resolution::Done(Err(e)),
                Ok(path) => match root {
                    Err(e) => Resolution::Done(Err(e)),
                    Ok(base) => if path.starts_with(&base) {
                        Resolution::Ask(
                            FsQuery::EntryKind { path: path.clone() },
                            ResolverState::Target(path),
                        )
                    } else {
                        Resolution::Done(Err(FsError::PermissionDenied))
                    },
                },
            }
        },
        (ResolverState::Target(path), FsAnswer::Kind(kind)) => match kind {
            EntryKind::File => Resolution::Done(Ok(path)),
            EntryKind::Directory => {
                let index = path.join("index.html");
                Resolution::Ask(
                    FsQuery::EntryKind { path: index.clone() },
                    ResolverState::Index(index),
                )
            },
            EntryKind::Other => Resolution::Done(Err(FsError::NotFound)),
        },
        (ResolverState::Index(path), FsAnswer::Kind(kind)) => match kind {
            EntryKind::File => Resolution::Done(Ok(path)),
            _ => Resolution::Done(Err(FsError::NotFound)),
        },
        _ => Resolution::Done(Err(FsError::Other)),
    }
}

/// Answering every query of a resolution from one file system leads to the
/// outcome that `resolve` names.
pub proof fn lemma_outcome_is_resolve(fs: FileSystem, target: Seq<char>)
    ensures
        outcome(fs, begin(target)) == resolve(fs, target),
{
    reveal_with_fuel(outcome, 4);
}

/// Whatever the file system answers, a path that the resolver returns lies
/// under the canonical root directory.
pub proof fn lemma_resolved_within_root(fs: FileSystem, target: Seq<char>)
    ensures
        resolve(fs, target) matches Ok(path) ==> fs.root matches Ok(root) && root.is_prefix_of(
            path,
        ),
{
    if let Ok(path) = resolve(fs, target) {
        let candidate = (fs.canonical)(strip_slashes(target)).unwrap();
        let root = fs.root.unwrap();
        if path != candidate {
            let index = candidate.push(index_document());
            assert(index.subrange(0, root.len() as int) =~= candidate.subrange(
                0,
                root.len() as int,
            ));
        }
    }
}

/// A target whose canonical form lies outside the canonical root is
/// refused with `PermissionDenied`, whatever kind of entry it leads to and
/// whatever that entry holds.
pub proof fn lemma_escape_is_refused(fs: FileSystem, target: Seq<char>)
    requires
        (fs.canonical)(strip_slashes(target)) matches Ok(candidate) && fs.root matches Ok(root)
            && !root.is_prefix_of(candidate),
    ensures
        resolve(fs, target) == Err::<Seq<Seq<char>>, FsError>(FsError::PermissionDenied),
{
}

/// Resolving a target twice gives the same outcome, if the file system
/// has not changed: two file systems that agree on the canonical forms of
/// the root directory and of the target, and on the kinds of the entries at
/// the target and at its index document, resolve the target alike. The
/// outcome depends on nothing else.
pub proof fn lemma_resolve_repeatable(first: FileSystem, second: FileSystem, target: Seq<char>)
    requires
        first.root == second.root,
        (first.canonical)(strip_slashes(target)) == (second.canonical)(strip_slashes(target)),
        (first.canonical)(strip_slashes(target)) matches Ok(path) ==> (first.kind)(path) == (
        second.kind)(path) && (first.kind)(path.push(index_document())) == (second.kind)(
            path.push(index_document()),
        ),
    ensures
        outcome(first, begin(target)) == outcome(second, begin(target)),
        resolve(first, target) == resolve(second, target),
{
    lemma_outcome_is_resolve(first, target);
    lemma_outcome_is_resolve(second, target);
}

} // verus!
