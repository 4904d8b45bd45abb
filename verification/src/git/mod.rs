//! Version-control objects and the subprocess backend that reads them.

pub mod backend;

pub use backend::CliBackend;

use crate::api::error::{Error, ErrorCode};
use vstd::prelude::*;

verus! {

/// Backend factory: opens repositories. Implementations decide how a
/// repository is reached; callers only see this capability set.
pub trait GitBackend {
    /// The handles that this backend opens
    type Handle: RepoHandle;

    /// Open a repository at the given path.
    fn open_repo(&self, path: &str) -> Result<Self::Handle, Error>;

    /// Check if a path is a valid repository.
    fn is_repo(&self, path: &str) -> Result<bool, Error>;
}

/// Handle to an open repository.
pub trait RepoHandle {
    type Objects: ObjectStore;

    type Refs: RefsStore;

    type Work: Workdir;

    type Index: IndexReader;

    /// Get a snapshot of the current repository state.
    fn snapshot(&self) -> Result<RepoSnapshot, Error>;

    /// Get the object store.
    fn object_store(&self) -> &Self::Objects;

    /// Get the refs store.
    fn refs_store(&self) -> &Self::Refs;

    /// Get the working directory interface.
    fn workdir(&self) -> &Self::Work;

    /// Get the index reader.
    fn index_reader(&self) -> &Self::Index;

    /// Get diff name-status between two revisions.
    fn diff_name_status(&self, range: &str) -> Result<String, Error>;

    /// Get diff numstat between two revisions.
    fn diff_numstat(&self, range: &str) -> Result<String, Error>;
}

/// Object store interface.
pub trait ObjectStore {
    /// Read a commit object.
    fn read_commit(&self, id: &str) -> Result<Commit, Error>;

    /// Read a tree object.
    fn read_tree(&self, id: &str) -> Result<Tree, Error>;

    /// Read a blob object.
    fn read_blob(&self, id: &str) -> Result<Blob, Error>;
}

/// References store interface.
pub trait RefsStore {
    /// Get all references.
    fn all_refs(&self) -> Result<Vec<RefInfo>, Error>;

    /// Resolve a reference to its target.
    fn resolve_ref(&self, name: &str) -> Result<String, Error>;
}

/// Working directory interface.
pub trait Workdir {
    /// Get status of the working directory.
    fn status(&self) -> Result<WorkdirStatus, Error>;
}

/// Index reader interface.
pub trait IndexReader {
    /// Get all staged entries.
    fn staged_entries(&self) -> Result<Vec<IndexEntry>, Error>;
}

/// What a backend without an implementation answers.
pub open spec fn not_implemented<T>(r: Result<T, Error>) -> bool {
    r is Err && r->Err_0.code == ErrorCode::GitBackendError && r->Err_0.message@
        == "Git backend not implemented"@ && r->Err_0.remediation is None && r->Err_0.details is None
}

fn refuse<T>() -> (r: Result<T, Error>)
    ensures
        not_implemented(r),
{
    Err(Error::with_message(ErrorCode::GitBackendError, "Git backend not implemented"))
}

/// Backend that answers every call with a "not implemented" error.
#[derive(Debug, Clone, Copy)]
pub struct StubGitBackend;

impl GitBackend for StubGitBackend {
    type Handle = StubRepoHandle;

    fn open_repo(&self, path: &str) -> (r: Result<StubRepoHandle, Error>)
        ensures
            not_implemented(r),
    {
        refuse()
    }

    fn is_repo(&self, path: &str) -> (r: Result<bool, Error>)
        ensures
            not_implemented(r),
    {
        refuse()
    }
}

/// Stub repository handle.
#[derive(Debug, Clone, Copy)]
pub struct StubRepoHandle {
    pub objects: StubObjectStore,
    pub refs: StubRefsStore,
    pub work: StubWorkdir,
    pub index: StubIndexReader,
}

impl RepoHandle for StubRepoHandle {
    type Objects = StubObjectStore;

    type Refs = StubRefsStore;

    type Work = StubWorkdir;

    type Index = StubIndexReader;

    fn snapshot(&self) -> (r: Result<RepoSnapshot, Error>)
        ensures
            not_implemented(r),
    {
        refuse()
    }

    fn object_store(&self) -> (r: &StubObjectStore)
        ensures
            *r == self.objects,
    {
        &self.objects
    }

    fn refs_store(&self) -> (r: &StubRefsStore)
        ensures
            *r == self.refs,
    {
        &self.refs
    }

    fn workdir(&self) -> (r: &StubWorkdir)
        ensures
            *r == self.work,
    {
        &self.work
    }

    fn index_reader(&self) -> (r: &StubIndexReader)
        ensures
            *r == self.index,
    {
        &self.index
    }

    fn diff_name_status(&self, range: &str) -> (r: Result<String, Error>)
        ensures
            not_implemented(r),
    {
        refuse()
    }

    fn diff_numstat(&self, range: &str) -> (r: Result<String, Error>)
        ensures
            not_implemented(r),
    {
        refuse()
    }
}

/// Stub object store.
#[derive(Debug, Clone, Copy)]
pub struct StubObjectStore;

impl ObjectStore for StubObjectStore {
    fn read_commit(&self, id: &str) -> (r: Result<Commit, Error>)
        ensures
            not_implemented(r),
    {
        refuse()
    }

    fn read_tree(&self, id: &str) -> (r: Result<Tree, Error>)
        ensures
            not_implemented(r),
    {
        refuse()
    }

    fn read_blob(&self, id: &str) -> (r: Result<Blob, Error>)
        ensures
            not_implemented(r),
    {
        refuse()
    }
}

/// Stub refs store.
#[derive(Debug, Clone, Copy)]
pub struct StubRefsStore;

impl RefsStore for StubRefsStore {
    fn all_refs(&self) -> (r: Result<Vec<RefInfo>, Error>)
        ensures
            not_implemented(r),
    {
        refuse()
    }

    fn resolve_ref(&self, name: &str) -> (r: Result<String, Error>)
        ensures
            not_implemented(r),
    {
        refuse()
    }
}

/// Stub workdir.
#[derive(Debug, Clone, Copy)]
pub struct StubWorkdir;

impl Workdir for StubWorkdir {
    fn status(&self) -> (r: Result<WorkdirStatus, Error>)
        ensures
            not_implemented(r),
    {
        refuse()
    }
}

/// Stub index reader.
#[derive(Debug, Clone, Copy)]
pub struct StubIndexReader;

impl IndexReader for StubIndexReader {
    fn staged_entries(&self) -> (r: Result<Vec<IndexEntry>, Error>)
        ensures
            not_implemented(r),
    {
        refuse()
    }
}

/// The texts that a list of strings holds.
pub open spec fn texts(v: Seq<String>) -> Seq<Seq<char>> {
    v.map_values(|s: String| s@)
}

/// The pairs of texts that a list of pairs of strings holds.
pub open spec fn text_pairs(v: Seq<(String, String)>) -> Seq<(Seq<char>, Seq<char>)> {
    v.map_values(|p: (String, String)| (p.0@, p.1@))
}

/// Immutable snapshot of repository state at a point in time.
#[derive(Debug, Clone)]
pub struct RepoSnapshot {
    /// Repository path
    pub path: String,
    /// HEAD commit ID
    pub head: Option<String>,
    /// Current branch name
    pub branch: Option<String>,
    /// All references
    pub refs: Vec<RefInfo>,
}

/// Reference information.
#[derive(Debug, Clone)]
pub struct RefInfo {
    /// Reference name (e.g., "refs/heads/main")
    pub name: String,
    /// Target commit ID
    pub target: String,
    /// Whether this is a symbolic reference
    pub is_symbolic: bool,
}

/// Commit object.
#[derive(Debug, Clone)]
pub struct Commit {
    /// Commit ID
    pub id: String,
    /// Tree ID
    pub tree_id: String,
    /// Parent commit IDs
    pub parent_ids: Vec<String>,
    /// Author information
    pub author: Signature,
    /// Committer information
    pub committer: Signature,
    /// Commit message
    pub message: String,
}

/// Tree object.
#[derive(Debug, Clone)]
pub struct Tree {
    /// Tree ID
    pub id: String,
    /// Tree entries
    pub entries: Vec<TreeEntry>,
}

/// Tree entry.
#[derive(Debug, Clone)]
pub struct TreeEntry {
    /// Entry mode
    pub mode: u32,
    /// Entry name
    pub name: String,
    /// Object ID
    pub id: String,
    /// Entry type
    pub entry_type: TreeEntryType,
}

/// Tree entry type.
#[derive(Debug, Clone, Copy, PartialEq, Eq, Structural)]
pub enum TreeEntryType {
    /// Blob (file)
    Blob,
    /// Tree (directory)
    Tree,
    /// Commit (submodule)
    Commit,
}

/// Blob object.
#[derive(Debug, Clone)]
pub struct Blob {
    /// Blob ID
    pub id: String,
    /// Blob content
    pub content: Vec<u8>,
}

/// Signature (author/committer info).
#[derive(Debug, Clone)]
pub struct Signature {
    /// Name
    pub name: String,
    /// Email
    pub email: String,
    /// Timestamp
    pub time: i64,
}

/// Working directory status.
#[derive(Debug, Clone)]
pub struct WorkdirStatus {
    /// Modified files
    pub modified: Vec<String>,
    /// Added files
    pub added: Vec<String>,
    /// Deleted files
    pub deleted: Vec<String>,
    /// Renamed files (old_name, new_name)
    pub renamed: Vec<(String, String)>,
    /// Untracked files
    pub untracked: Vec<String>,
}

/// What a working directory status says, as plain texts.
pub struct StatusModel {
    pub modified: Seq<Seq<char>>,
    pub added: Seq<Seq<char>>,
    pub deleted: Seq<Seq<char>>,
    pub renamed: Seq<(Seq<char>, Seq<char>)>,
    pub untracked: Seq<Seq<char>>,
}

impl View for WorkdirStatus {
    type V = StatusModel;

    open spec fn view(&self) -> StatusModel {
        StatusModel {
            modified: texts(self.modified@),
            added: texts(self.added@),
            deleted: texts(self.deleted@),
            renamed: text_pairs(self.renamed@),
            untracked: texts(self.untracked@),
        }
    }
}

/// Index entry.
#[derive(Debug, Clone)]
pub struct IndexEntry {
    /// File path
    pub path: String,
    /// Object ID
    pub id: String,
    /// File mode
    pub mode: u32,
}

} // verus!
