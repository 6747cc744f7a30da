//! What the server asks of the file system, and what it hears back, as
//! plain values.
//!
//! The engine never touches the disk. It hands its caller a query, the
//! caller looks at the disk, and the answer comes back as one of the values
//! below.

use vstd::prelude::*;
use vstd::string::*;
use crate::text::{str_eq, to_chars};

verus! {

/// How a file-system operation failed, as far as the server tells
/// failures apart.
#[derive(Debug, Clone, Copy, PartialEq, Eq, Structural)]
pub enum FsError {
    NotFound,
    PermissionDenied,
    Other,
}

/// What kind of entry a path leads to.
#[derive(Debug, Clone, Copy, PartialEq, Eq, Structural)]
pub enum EntryKind {
    File,
    Directory,
    Other,
}

/// The characters of each string in a sequence.
pub open spec fn texts(strings: Seq<String>) -> Seq<Seq<char>> {
    Seq::new(strings.len(), |i: int| strings[i]@)
}

/// A path in canonical form, as the sequence of its components from the
/// root of the file system down.
#[derive(Debug, PartialEq, Eq)]
pub struct FilePath {
    pub components: Vec<String>,
}

impl View for FilePath {
    type V = Seq<Seq<char>>;

    open spec fn view(&self) -> Seq<Seq<char>> {
        texts(self.components@)
    }
}

impl Clone for FilePath {
    fn clone(&self) -> (copy: Self)
        ensures
            copy@ == self@,
    {
        let mut components: Vec<String> = Vec::new();
        let mut i: usize = 0;
        while i < self.components.len()
            invariant
                i <= self.components.len(),
                components@.len() == i,
                forall|k: int| 0 <= k < i ==> components@[k] == self.components@[k],
            decreases self.components.len() - i,
        {
            components.push(self.components[i].clone());
            i += 1;
        }
        assert(texts(components@) =~= texts(self.components@));
        FilePath { components }
    }
}

/// Position of the last `c` in `s`, or `-1` when `s` holds none.
pub open spec fn last_index(s: Seq<char>, c: char) -> int
    decreases s.len(),
{
    if s.len() == 0 {
        -1
    } else if s.last() == c {
        s.len() - 1
    } else {
        last_index(s.drop_last(), c)
    }
}

/// The extension of a file name: what follows its last dot. A name
/// without a dot has none, nor has one whose only dot is its first
/// character, nor has `..`.
pub open spec fn extension_of_name(name: Seq<char>) -> Option<Seq<char>> {
    let dot = last_index(name, '.');
    if name == seq!['.', '.'] || dot <= 0 {
        None
    } else {
        Some(name.skip(dot + 1))
    }
}

/// The extension of a path: that of its last component.
pub open spec fn extension_of(path: Seq<Seq<char>>) -> Option<Seq<char>> {
    if path.len() == 0 {
        None
    } else {
        extension_of_name(path.last())
    }
}

/// A position that holds `c` and is followed by no `c`, or `-1` where no
/// position holds it, is `last_index(s, c)`.
pub proof fn lemma_last_index_unique(s: Seq<char>, c: char, i: int)
    requires
        -1 <= i < s.len(),
        forall|k: int| i < k < s.len() ==> s[k] != c,
        i >= 0 ==> s[i] == c,
    ensures
        last_index(s, c) == i,
    decreases s.len(),
{
    if s.len() > 0 && s.last() != c {
        let t = s.drop_last();
        assert forall|k: int| i < k < t.len() implies t[k] != c by {
            assert(t[k] == s[k]);
        }
        lemma_last_index_unique(t, c, i);
    }
}

impl FilePath {
    /// Whether `base` is this path or one of its ancestors: whether the
    /// components of `base` are the first components of this path.
    pub fn starts_with(&self, base: &FilePath) -> (within: bool)
        ensures
            within == base@.is_prefix_of(self@),
    {
        if base.components.len() > self.components.len() {
            return false;
        }
        let mut i: usize = 0;
        while i < base.components.len()
            invariant
                i <= base.components.len() <= self.components.len(),
                forall|k: int| 0 <= k < i ==> self@[k] == base@[k],
            decreases base.components.len() - i,
        {
            if !str_eq(self.components[i].as_str(), base.components[i].as_str()) {
                assert(self@[i as int] != base@[i as int]);
                assert(self@.subrange(0, base@.len() as int)[i as int] == self@[i as int]);
                return false;
            }
            i += 1;
        }
        assert(self@.subrange(0, base@.len() as int) =~= base@);
        true
    }

    /// This path with one more component, `name`, at its end.
    pub fn join(&self, name: &str) -> (path: FilePath)
        ensures
            path@ == self@.push(name@),
    {
        let mut path = self.clone();
        let ghost before = path.components@;
        assert(texts(before) == self@);
        path.components.push(String::from_str(name));
        assert(texts(path.components@) =~= self@.push(name@));
        path
    }

    /// The extension of the file that this path names.
    pub fn extension(&self) -> (ext: Option<String>)
        ensures
            match ext {
                Some(e) => extension_of(self@) == Some(e@),
                None => extension_of(self@).is_none(),
            },
    {
        let n = self.components.len();
        if n == 0 {
            return None;
        }
        let name = self.components[n - 1].as_str();
        assert(name@ == self@.last());
        let chars = to_chars(name);
        if chars.len() == 2 && chars[0] == '.' && chars[1] == '.' {
            assert(name@ =~= seq!['.', '.']);
            return None;
        }
        let mut i: usize = chars.len();
        while i > 0 && chars[i - 1] != '.'
            invariant
                i <= chars.len(),
                forall|k: int| i <= k < chars.len() ==> chars@[k] != '.',
            decreases i,
        {
            i -= 1;
        }
        proof {
            lemma_last_index_unique(chars@, '.', i - 1);
        }
        if i <= 1 {
            None
        } else {
            let ext = name.substring_char(i, chars.len());
            assert(ext@ =~= name@.skip(i as int));
            Some(String::from_str(ext))
        }
    }
}

/// What the engine asks its caller to find out.
#[derive(Debug, Clone, PartialEq, Eq)]
pub enum FsQuery {
    /// The canonical form of the root directory, and that of the path that
    /// joining `relative` onto the root directory gives.
    Canonicalize { relative: String },
    /// The kind of the entry at `path`.
    EntryKind { path: FilePath },
    /// The text of the file at `path`.
    ReadFile { path: FilePath },
}

/// What the caller found out.
#[derive(Debug, PartialEq, Eq)]
pub enum FsAnswer {
    /// Answers `Canonicalize`.
    Canonical { candidate: Result<FilePath, FsError>, root: Result<FilePath, FsError> },
    /// Answers `EntryKind`.
    Kind(EntryKind),
    /// Answers `ReadFile`.
    Content(Result<String, FsError>),
}

/// What an [`FsQuery`] stands for.
pub enum FsQueryModel {
    Canonicalize { relative: Seq<char> },
    EntryKind { path: Seq<Seq<char>> },
    ReadFile { path: Seq<Seq<char>> },
}

/// What an [`FsAnswer`] stands for.
pub enum FsAnswerModel {
    Canonical { candidate: Result<Seq<Seq<char>>, FsError>, root: Result<Seq<Seq<char>>, FsError> },
    Kind(EntryKind),
    Content(Result<Seq<char>, FsError>),
}

/// The components of a path that was looked up, or why the lookup failed.
pub open spec fn path_result(r: Result<FilePath, FsError>) -> Result<Seq<Seq<char>>, FsError> {
    match r {
        Ok(p) => Ok(p@),
        Err(e) => Err(e),
    }
}

/// The characters of a text that was read, or why reading failed.
pub open spec fn text_result(r: Result<String, FsError>) -> Result<Seq<char>, FsError> {
    match r {
        Ok(t) => Ok(t@),
        Err(e) => Err(e),
    }
}

impl View for FsQuery {
    type V = FsQueryModel;

    open spec fn view(&self) -> FsQueryModel {
        match self {
            FsQuery::Canonicalize { relative } => FsQueryModel::Canonicalize {
                relative: relative@,
            },
            FsQuery::EntryKind { path } => FsQueryModel::EntryKind { path: path@ },
            FsQuery::ReadFile { path } => FsQueryModel::ReadFile { path: path@ },
        }
    }
}

impl View for FsAnswer {
    type V = FsAnswerModel;

    open spec fn view(&self) -> FsAnswerModel {
        match self {
            FsAnswer::Canonical { candidate, root } => FsAnswerModel::Canonical {
                candidate: path_result(*candidate),
                root: path_result(*root),
            },
            FsAnswer::Kind(kind) => FsAnswerModel::Kind(*kind),
            FsAnswer::Content(content) => FsAnswerModel::Content(text_result(*content)),
        }
    }
}

/// A file system as the server sees it through its queries: what each
/// query is answered with. It is the state of the disk during one request.
pub struct FileSystem {
    /// The canonical form of the root directory.
    pub root: Result<Seq<Seq<char>>, FsError>,
    /// The canonical form of the root directory joined with a relative path.
    pub canonical: spec_fn(Seq<char>) -> Result<Seq<Seq<char>>, FsError>,
    /// The kind of the entry at a canonical path.
    pub kind: spec_fn(Seq<Seq<char>>) -> EntryKind,
    /// The text of the file at a canonical path.
    pub content: spec_fn(Seq<Seq<char>>) -> Result<Seq<char>, FsError>,
}

impl FileSystem {
    /// The answer that this file system gives to `query`.
    pub open spec fn answer(self, query: FsQueryModel) -> FsAnswerModel {
        match query {
            FsQueryModel::Canonicalize { relative } => FsAnswerModel::Canonical {
                candidate: (self.canonical)(relative),
                root: self.root,
            },
            FsQueryModel::EntryKind { path } => FsAnswerModel::Kind((self.kind)(path)),
            FsQueryModel::ReadFile { path } => FsAnswerModel::Content((self.content)(path)),
        }
    }
}

} // verus!
