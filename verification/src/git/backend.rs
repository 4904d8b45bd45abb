//! The subprocess backend: which commands it runs and how it reads their
//! output.

use crate::api::error::{Error, ErrorCode};
use crate::git::{
    text_pairs, texts, Blob, Commit, IndexEntry, IndexReader, ObjectStore, RefInfo, RefsStore,
    RepoSnapshot, StatusModel, Tree, WorkdirStatus,
};
use crate::text::{
    cut, from_chars, lemma_scan_bounds, nul, ranges_within, scan_to, to_chars, tokens_from, trim,
    trim_range,
};
use vstd::prelude::*;
use vstd::string::StringExecFns;
use vstd::utf8::{decode_utf8, valid_utf8};

verus! {

/// The text that lossy UTF-8 decoding makes of `bytes`: the decoded text
/// where the bytes are well formed, and a text with replacement characters in
/// place of each malformed sequence otherwise.
pub uninterp spec fn lossy_text(bytes: Seq<u8>) -> Seq<char>;

/// `String::from_utf8_lossy`: decodes `bytes` as UTF-8, putting U+FFFD in
/// place of malformed sequences. Well-formed input is decoded unchanged; for
/// the rest the result is only named.
#[verifier::external_body]
pub(crate) fn utf8_lossy(bytes: &[u8]) -> (s: String)
    ensures
        s@ == lossy_text(bytes@),
        valid_utf8(bytes@) ==> s@ == decode_utf8(bytes@),
{
    String::from_utf8_lossy(bytes).into_owned()
}

/// What a finished subprocess left behind.
#[derive(Debug, Clone)]
pub struct ProcessOutput {
    /// Whether the process exited with status zero
    pub success: bool,
    /// Everything it wrote to standard output
    pub stdout: Vec<u8>,
    /// Everything it wrote to standard error
    pub stderr: Vec<u8>,
}

/// `prefix` followed by `detail`, as a backend error.
pub fn backend_error(prefix: &str, detail: &str) -> (e: Error)
    ensures
        e.code == ErrorCode::GitBackendError,
        e.message@ == prefix@ + detail@,
        e.remediation is None,
        e.details is None,
{
    let mut message = String::from_str(prefix);
    message.append(detail);
    Error::new(ErrorCode::GitBackendError, message)
}

/// The error for a subprocess that could not be started.
pub fn spawn_error(reason: &str) -> (e: Error)
    ensures
        e.code == ErrorCode::GitBackendError,
        e.message@ == "Failed to execute git: "@ + reason@,
        e.remediation is None,
        e.details is None,
{
    backend_error("Failed to execute git: ", reason)
}

/// `text` without leading and trailing white space.
pub fn trimmed(text: &str) -> (r: String)
    ensures
        r@ == trim(text@),
{
    let chars = to_chars(text);
    let (start, end) = trim_range(chars.as_slice());
    from_chars(&chars.as_slice()[start..end])
}

/// The arguments that select the repository at `path`, followed by `rest`.
pub open spec fn in_repo(path: Seq<char>, rest: Seq<Seq<char>>) -> Seq<Seq<char>> {
    seq!["-C"@, path] + rest
}

/// The argument list that runs `rest` inside the repository at `path`.
fn repo_args(path: &str, rest: Vec<String>) -> (args: Vec<String>)
    ensures
        texts(args@) == in_repo(path@, texts(rest@)),
{
    let mut args: Vec<String> = Vec::new();
    args.push(String::from_str("-C"));
    args.push(String::from_str(path));
    let mut rest = rest;
    let ghost tail = rest@;
    args.append(&mut rest);
    assert(texts(args@) =~= in_repo(path@, texts(tail)));
    args
}

/// Backend that runs one `git` subprocess per operation.
#[derive(Debug, Clone, Copy)]
pub struct CliBackend;

impl CliBackend {
    /// Create a new CLI backend.
    pub fn new() -> CliBackend {
        CliBackend
    }

    /// Arguments of the probe that tells whether `path` is a repository.
    pub fn is_repo_args(&self, path: &str) -> (args: Vec<String>)
        ensures
            texts(args@) == in_repo(path@, seq!["rev-parse"@, "--git-dir"@]),
    {
        let mut rest: Vec<String> = Vec::new();
        rest.push(String::from_str("rev-parse"));
        rest.push(String::from_str("--git-dir"));
        assert(texts(rest@) =~= seq!["rev-parse"@, "--git-dir"@]);
        repo_args(path, rest)
    }

    /// What the probe says: a path is a repository exactly when the probe
    /// exited with success.
    pub fn is_repo(&self, probe: &ProcessOutput) -> (r: Result<bool, Error>)
        ensures
            r == Ok::<bool, Error>(probe.success),
    {
        Ok(probe.success)
    }

    /// Open the repository at `path`, given whether the probe found one.
    pub fn open_repo(&self, path: &str, is_valid: bool) -> (r: Result<CliRepoHandle, Error>)
        ensures
            is_valid ==> r is Ok && r->Ok_0.path@ == path@ && r->Ok_0.workdir.path@ == path@,
            !is_valid ==> r is Err && r->Err_0.code == ErrorCode::RepoNotFound
                && r->Err_0.message@ == "Not a git repository: "@ + path@
                && r->Err_0.remediation is None && r->Err_0.details is None,
    {
        if !is_valid {
            let mut message = String::from_str("Not a git repository: ");
            message.append(path);
            return Err(Error::new(ErrorCode::RepoNotFound, message));
        }
        Ok(CliRepoHandle::new(path))
    }
}

impl Default for CliBackend {
    fn default() -> CliBackend {
        CliBackend::new()
    }
}

/// Repository handle of the subprocess backend.
#[derive(Debug, Clone)]
pub struct CliRepoHandle {
    pub path: String,
    pub workdir: CliWorkdir,
}

/// The object name that a successful `rev-parse` printed, if it succeeded.
pub open spec fn printed_name(out: ProcessOutput) -> Option<Seq<char>> {
    if out.success {
        Some(trim(lossy_text(out.stdout@)))
    } else {
        None
    }
}

/// The branch that an abbreviated `rev-parse` of HEAD names; a detached HEAD
/// prints `HEAD` and names none.
pub open spec fn printed_branch(out: ProcessOutput) -> Option<Seq<char>> {
    match printed_name(out) {
        Some(name) => if name == "HEAD"@ {
            None
        } else {
            Some(name)
        },
        None => None,
    }
}

/// What a diff listing yields: its text, or the error that carries what the
/// subprocess wrote to standard error.
pub open spec fn listing_ok(out: ProcessOutput, r: Result<String, Error>, prefix: Seq<char>) -> bool {
    if out.success {
        r is Ok && r->Ok_0@ == lossy_text(out.stdout@)
    } else {
        r is Err && r->Err_0.code == ErrorCode::GitBackendError && r->Err_0.message@ == prefix
            + lossy_text(out.stderr@) && r->Err_0.remediation is None && r->Err_0.details is None
    }
}

impl CliRepoHandle {
    pub fn new(path: &str) -> (h: CliRepoHandle)
        ensures
            h.path@ == path@,
            h.workdir.path@ == path@,
    {
        CliRepoHandle { workdir: CliWorkdir { path: String::from_str(path) }, path: String::from_str(path) }
    }

    /// Arguments that print the commit HEAD points at.
    pub fn head_args(&self) -> (args: Vec<String>)
        ensures
            texts(args@) == in_repo(self.path@, seq!["rev-parse"@, "HEAD"@]),
    {
        let mut rest: Vec<String> = Vec::new();
        rest.push(String::from_str("rev-parse"));
        rest.push(String::from_str("HEAD"));
        assert(texts(rest@) =~= seq!["rev-parse"@, "HEAD"@]);
        repo_args(self.path.as_str(), rest)
    }

    /// Arguments that print the name of the current branch.
    pub fn branch_args(&self) -> (args: Vec<String>)
        ensures
            texts(args@) == in_repo(self.path@, seq!["rev-parse"@, "--abbrev-ref"@, "HEAD"@]),
    {
        let mut rest: Vec<String> = Vec::new();
        rest.push(String::from_str("rev-parse"));
        rest.push(String::from_str("--abbrev-ref"));
        rest.push(String::from_str("HEAD"));
        assert(texts(rest@) =~= seq!["rev-parse"@, "--abbrev-ref"@, "HEAD"@]);
        repo_args(self.path.as_str(), rest)
    }

    /// The snapshot that the two `rev-parse` runs describe.
    pub fn snapshot(&self, head: &ProcessOutput, branch: &ProcessOutput) -> (r: Result<
        RepoSnapshot,
        Error,
    >)
        ensures
            r is Ok,
            r->Ok_0.path@ == self.path@,
            match printed_name(*head) {
                Some(name) => r->Ok_0.head is Some && r->Ok_0.head->0@ == name,
                None => r->Ok_0.head is None,
            },
            match printed_branch(*branch) {
                Some(name) => r->Ok_0.branch is Some && r->Ok_0.branch->0@ == name,
                None => r->Ok_0.branch is None,
            },
            r->Ok_0.refs@.len() == 0,
    {
        let head_name = if head.success {
            let text = utf8_lossy(head.stdout.as_slice());
            Some(trimmed(text.as_str()))
        } else {
            None
        };
        let branch_name = if branch.success {
            let text = utf8_lossy(branch.stdout.as_slice());
            let name = trimmed(text.as_str());
            let detached = String::from_str("HEAD");
            if name != detached {
                Some(name)
            } else {
                None
            }
        } else {
            None
        };
        Ok(RepoSnapshot { path: self.path.clone(), head: head_name, branch: branch_name, refs: Vec::new() })
    }

    /// Arguments of the rename-aware name-status listing for `range`.
    pub fn diff_name_status_args(&self, range: &str) -> (args: Vec<String>)
        ensures
            texts(args@) == in_repo(self.path@, seq!["diff"@, "--name-status"@, "-M"@, range@]),
    {
        let mut rest: Vec<String> = Vec::new();
        rest.push(String::from_str("diff"));
        rest.push(String::from_str("--name-status"));
        rest.push(String::from_str("-M"));
        rest.push(String::from_str(range));
        assert(texts(rest@) =~= seq!["diff"@, "--name-status"@, "-M"@, range@]);
        repo_args(self.path.as_str(), rest)
    }

    /// Arguments of the numeric stat listing for `range`.
    pub fn diff_numstat_args(&self, range: &str) -> (args: Vec<String>)
        ensures
            texts(args@) == in_repo(self.path@, seq!["diff"@, "--numstat"@, range@]),
    {
        let mut rest: Vec<String> = Vec::new();
        rest.push(String::from_str("diff"));
        rest.push(String::from_str("--numstat"));
        rest.push(String::from_str(range));
        assert(texts(rest@) =~= seq!["diff"@, "--numstat"@, range@]);
        repo_args(self.path.as_str(), rest)
    }

    /// What the name-status listing yields.
    pub fn diff_name_status(&self, out: &ProcessOutput) -> (r: Result<String, Error>)
        ensures
            listing_ok(*out, r, "git diff failed: "@),
    {
        listing(out, "git diff failed: ")
    }

    /// What the numeric stat listing yields.
    pub fn diff_numstat(&self, out: &ProcessOutput) -> (r: Result<String, Error>)
        ensures
            listing_ok(*out, r, "git diff failed: "@),
    {
        listing(out, "git diff failed: ")
    }

    /// The working directory interface of this handle.
    pub fn workdir(&self) -> (w: &CliWorkdir)
        ensures
            *w == self.workdir,
    {
        &self.workdir
    }

    /// The object store of this handle.
    pub fn object_store(&self) -> CliObjectStore {
        CliObjectStore
    }

    /// The refs store of this handle.
    pub fn refs_store(&self) -> CliRefsStore {
        CliRefsStore
    }

    /// The index reader of this handle.
    pub fn index_reader(&self) -> CliIndexReader {
        CliIndexReader
    }
}

/// The text that a subprocess printed, or the error that carries what it wrote
/// to standard error after `prefix`.
fn listing(out: &ProcessOutput, prefix: &str) -> (r: Result<String, Error>)
    ensures
        listing_ok(*out, r, prefix@),
{
    if !out.success {
        let stderr = utf8_lossy(out.stderr.as_slice());
        return Err(backend_error(prefix, stderr.as_str()));
    }
    Ok(utf8_lossy(out.stdout.as_slice()))
}

/// Working directory of the subprocess backend.
#[derive(Debug, Clone)]
pub struct CliWorkdir {
    pub path: String,
}

impl CliWorkdir {
    /// Arguments of the NUL-delimited porcelain status listing.
    pub fn status_args(&self) -> (args: Vec<String>)
        ensures
            texts(args@) == in_repo(self.path@, seq!["status"@, "--porcelain=v1"@, "-z"@]),
    {
        let mut rest: Vec<String> = Vec::new();
        rest.push(String::from_str("status"));
        rest.push(String::from_str("--porcelain=v1"));
        rest.push(String::from_str("-z"));
        assert(texts(rest@) =~= seq!["status"@, "--porcelain=v1"@, "-z"@]);
        repo_args(self.path.as_str(), rest)
    }

    /// The status that the listing describes, or the error that carries what
    /// the subprocess wrote to standard error.
    pub fn status(&self, out: &ProcessOutput) -> (r: Result<WorkdirStatus, Error>)
        ensures
            out.success ==> r is Ok && r->Ok_0@ == parse_status(out.stdout@),
            !out.success ==> r is Err && r->Err_0.code == ErrorCode::GitBackendError
                && r->Err_0.message@ == "git status failed: "@ + lossy_text(out.stderr@)
                && r->Err_0.remediation is None && r->Err_0.details is None,
    {
        if !out.success {
            let stderr = utf8_lossy(out.stderr.as_slice());
            return Err(backend_error("git status failed: ", stderr.as_str()));
        }
        parse_status_porcelain(out.stdout.as_slice())
    }
}

/// What a capability that the subprocess backend lacks answers.
pub open spec fn unfinished<T>(r: Result<T, Error>, message: Seq<char>) -> bool {
    r is Err && r->Err_0.code == ErrorCode::GitBackendError && r->Err_0.message@ == message
        && r->Err_0.remediation is None && r->Err_0.details is None
}

/// Object store of the subprocess backend.
#[derive(Debug, Clone, Copy)]
pub struct CliObjectStore;

impl ObjectStore for CliObjectStore {
    fn read_commit(&self, id: &str) -> (r: Result<Commit, Error>)
        ensures
            unfinished(r, "CLI object store not fully implemented"@),
    {
        Err(Error::with_message(ErrorCode::GitBackendError, "CLI object store not fully implemented"))
    }

    fn read_tree(&self, id: &str) -> (r: Result<Tree, Error>)
        ensures
            unfinished(r, "CLI object store not fully implemented"@),
    {
        Err(Error::with_message(ErrorCode::GitBackendError, "CLI object store not fully implemented"))
    }

    fn read_blob(&self, id: &str) -> (r: Result<Blob, Error>)
        ensures
            unfinished(r, "CLI object store not fully implemented"@),
    {
        Err(Error::with_message(ErrorCode::GitBackendError, "CLI object store not fully implemented"))
    }
}

/// Refs store of the subprocess backend.
#[derive(Debug, Clone, Copy)]
pub struct CliRefsStore;

impl RefsStore for CliRefsStore {
    fn all_refs(&self) -> (r: Result<Vec<RefInfo>, Error>)
        ensures
            unfinished(r, "CLI refs store not fully implemented"@),
    {
        Err(Error::with_message(ErrorCode::GitBackendError, "CLI refs store not fully implemented"))
    }

    fn resolve_ref(&self, name: &str) -> (r: Result<String, Error>)
        ensures
            unfinished(r, "CLI refs store not fully implemented"@),
    {
        Err(Error::with_message(ErrorCode::GitBackendError, "CLI refs store not fully implemented"))
    }
}

/// Index reader of the subprocess backend.
#[derive(Debug, Clone, Copy)]
pub struct CliIndexReader;

impl IndexReader for CliIndexReader {
    fn staged_entries(&self) -> (r: Result<Vec<IndexEntry>, Error>)
        ensures
            unfinished(r, "CLI index reader not fully implemented"@),
    {
        Err(Error::with_message(ErrorCode::GitBackendError, "CLI index reader not fully implemented"))
    }
}

impl StatusModel {
    /// The status that names no path.
    pub open spec fn empty() -> StatusModel {
        StatusModel {
            modified: Seq::empty(),
            added: Seq::empty(),
            deleted: Seq::empty(),
            renamed: Seq::empty(),
            untracked: Seq::empty(),
        }
    }

    pub open spec fn with_modified(self, path: Seq<char>) -> StatusModel {
        StatusModel { modified: self.modified.push(path), ..self }
    }

    pub open spec fn with_added(self, path: Seq<char>) -> StatusModel {
        StatusModel { added: self.added.push(path), ..self }
    }

    pub open spec fn with_deleted(self, path: Seq<char>) -> StatusModel {
        StatusModel { deleted: self.deleted.push(path), ..self }
    }

    pub open spec fn with_untracked(self, path: Seq<char>) -> StatusModel {
        StatusModel { untracked: self.untracked.push(path), ..self }
    }

    pub open spec fn with_rename(self, old_path: Seq<char>, new_path: Seq<char>) -> StatusModel {
        StatusModel { renamed: self.renamed.push((old_path, new_path)), ..self }
    }

    /// The status after a record with codes `x` (index column) and `y`
    /// (working-tree column) for `path` is taken in, by the rule table:
    /// `??` is untracked; `A` in the index column is added; `M` in one column
    /// with a blank or an `M` in the other is modified; `D` in either column
    /// is deleted. Renames are not handled here: they span two records.
    pub open spec fn with_coded(self, x: u8, y: u8, path: Seq<char>) -> StatusModel {
        if x == CODE_UNKNOWN && y == CODE_UNKNOWN {
            self.with_untracked(path)
        } else if x == CODE_ADDED {
            self.with_added(path)
        } else if x == CODE_MODIFIED && y == CODE_NONE {
            self.with_modified(path)
        } else if (x == CODE_NONE || x == CODE_MODIFIED) && y == CODE_MODIFIED {
            self.with_modified(path)
        } else if x == CODE_DELETED || y == CODE_DELETED {
            self.with_deleted(path)
        } else {
            self.with_fallback(x, y, path)
        }
    }

    /// Number of paths in all categories together.
    pub open spec fn count(self) -> nat {
        self.modified.len() + self.added.len() + self.deleted.len() + self.untracked.len()
            + self.renamed.len()
    }

    /// Best effort for a code pair outside the rule table: each column is
    /// read on its own.
    pub open spec fn with_fallback(self, x: u8, y: u8, path: Seq<char>) -> StatusModel {
        let s1 = if x == CODE_MODIFIED || y == CODE_MODIFIED {
            self.with_modified(path)
        } else {
            self
        };
        let s2 = if x == CODE_ADDED {
            s1.with_added(path)
        } else {
            s1
        };
        if x == CODE_DELETED || y == CODE_DELETED {
            s2.with_deleted(path)
        } else {
            s2
        }
    }
}

/// Status code `?`: not tracked
pub const CODE_UNKNOWN: u8 = 63;

/// Status code `A`: added
pub const CODE_ADDED: u8 = 65;

/// Status code `M`: modified
pub const CODE_MODIFIED: u8 = 77;

/// Status code `D`: deleted
pub const CODE_DELETED: u8 = 68;

/// Status code `R`: renamed
pub const CODE_RENAMED: u8 = 82;

/// Status code blank: unchanged in this column
pub const CODE_NONE: u8 = 32;

/// The records of a NUL-delimited stream: its non-empty fields.
pub open spec fn records(bytes: Seq<u8>) -> Seq<Seq<u8>> {
    tokens_from(bytes, 0, nul())
}

/// Whether `rec` is long enough to hold two status codes, a blank and a path.
pub open spec fn is_entry(rec: Seq<u8>) -> bool {
    rec.len() >= 3
}

/// The path that an entry names.
pub open spec fn entry_path(rec: Seq<u8>) -> Seq<char> {
    lossy_text(rec.skip(3))
}

/// The status that the records from index `i` on add to `st`. A record that
/// is too short is passed over. A rename takes the record after it as the old
/// path, so the walk moves on by two; a rename that is the last record adds
/// nothing.
pub open spec fn status_from(recs: Seq<Seq<u8>>, i: int, st: StatusModel) -> StatusModel
    decreases recs.len() - i,
{
    if i < 0 || i >= recs.len() {
        st
    } else if !is_entry(recs[i]) {
        status_from(recs, i + 1, st)
    } else if recs[i][0] == CODE_RENAMED {
        if i + 1 < recs.len() {
            status_from(recs, i + 2, st.with_rename(lossy_text(recs[i + 1]), entry_path(recs[i])))
        } else {
            status_from(recs, i + 1, st)
        }
    } else {
        status_from(recs, i + 1, st.with_coded(recs[i][0], recs[i][1], entry_path(recs[i])))
    }
}

/// The status that a porcelain stream describes.
pub open spec fn parse_status(bytes: Seq<u8>) -> StatusModel {
    status_from(records(bytes), 0, StatusModel::empty())
}

/// A rename record with a record after it is read together with that record:
/// the walk goes on two records further, with exactly one pair added.
pub proof fn lemma_rename_takes_two(recs: Seq<Seq<u8>>, i: int, st: StatusModel)
    requires
        0 <= i,
        i + 1 < recs.len(),
        is_entry(recs[i]),
        recs[i][0] == CODE_RENAMED,
    ensures
        status_from(recs, i, st) == status_from(
            recs,
            i + 2,
            st.with_rename(lossy_text(recs[i + 1]), entry_path(recs[i])),
        ),
        st.with_rename(lossy_text(recs[i + 1]), entry_path(recs[i])).renamed.len()
            == st.renamed.len() + 1,
        st.with_rename(lossy_text(recs[i + 1]), entry_path(recs[i])).modified == st.modified,
        st.with_rename(lossy_text(recs[i + 1]), entry_path(recs[i])).added == st.added,
        st.with_rename(lossy_text(recs[i + 1]), entry_path(recs[i])).deleted == st.deleted,
        st.with_rename(lossy_text(recs[i + 1]), entry_path(recs[i])).untracked == st.untracked,
{
}

/// Whether the code pair is in the rule table.
pub open spec fn in_table(x: u8, y: u8) -> bool {
    ||| x == CODE_UNKNOWN && y == CODE_UNKNOWN
    ||| x == CODE_ADDED
    ||| x == CODE_MODIFIED && (y == CODE_NONE || y == CODE_MODIFIED)
    ||| x == CODE_NONE && y == CODE_MODIFIED
    ||| x == CODE_DELETED
    ||| y == CODE_DELETED
}

/// One record never puts its path into two categories: whatever its codes,
/// at most one category gains the path, and a code pair of the rule table
/// gains exactly one.
pub proof fn lemma_one_category(st: StatusModel, x: u8, y: u8, path: Seq<char>)
    ensures
        st.with_coded(x, y, path).count() <= st.count() + 1,
        in_table(x, y) ==> st.with_coded(x, y, path).count() == st.count() + 1,
        st.with_coded(x, y, path).renamed == st.renamed,
{
}

/// Every walk over records keeps what was there: categories only grow, by at
/// most one path for each record.
pub proof fn lemma_status_grows(recs: Seq<Seq<u8>>, i: int, st: StatusModel)
    requires
        0 <= i <= recs.len(),
    ensures
        st.count() <= status_from(recs, i, st).count() <= st.count() + (recs.len() - i),
    decreases recs.len() - i,
{
    if i < recs.len() {
        if !is_entry(recs[i]) {
            lemma_status_grows(recs, i + 1, st);
        } else if recs[i][0] == CODE_RENAMED {
            if i + 1 < recs.len() {
                lemma_status_grows(
                    recs,
                    i + 2,
                    st.with_rename(lossy_text(recs[i + 1]), entry_path(recs[i])),
                );
            } else {
                lemma_status_grows(recs, i + 1, st);
            }
        } else {
            lemma_one_category(st, recs[i][0], recs[i][1], entry_path(recs[i]));
            lemma_status_grows(
                recs,
                i + 1,
                st.with_coded(recs[i][0], recs[i][1], entry_path(recs[i])),
            );
        }
    }
}

/// Position of the first zero byte at or after `from`, or the length of `s`.
fn find_nul(s: &[u8], from: usize) -> (end: usize)
    requires
        from <= s.len(),
    ensures
        from <= end <= s.len(),
        end == scan_to(s@, from as int, nul()),
{
    let mut i: usize = from;
    while i < s.len() && s[i] != 0
        invariant
            from <= i <= s.len(),
            scan_to(s@, i as int, nul()) == scan_to(s@, from as int, nul()),
        decreases s.len() - i,
    {
        i += 1;
    }
    i
}

/// Where the records of a NUL-delimited stream lie.
pub fn record_ranges(s: &[u8]) -> (r: Vec<(usize, usize)>)
    ensures
        ranges_within(r@, s@.len()),
        cut(s@, r@) == records(s@),
{
    let mut r: Vec<(usize, usize)> = Vec::new();
    let mut pos: usize = 0;
    while pos < s.len()
        invariant
            pos <= s.len(),
            ranges_within(r@, s@.len()),
            cut(s@, r@) + tokens_from(s@, pos as int, nul()) == tokens_from(s@, 0, nul()),
        decreases s.len() - pos,
    {
        let end = find_nul(s, pos);
        proof {
            lemma_scan_bounds(s@, pos as int, nul());
        }
        if end > pos {
            let ghost before = r@;
            r.push((pos, end));
            assert(cut(s@, r@) =~= cut(s@, before) + seq![s@.subrange(pos as int, end as int)]);
        }
        if end >= s.len() {
            pos = s.len();
        } else {
            pos = end + 1;
        }
        assert(cut(s@, r@) + tokens_from(s@, pos as int, nul()) =~= tokens_from(s@, 0, nul()));
    }
    r
}

/// Parse the NUL-delimited porcelain status stream.
///
/// Each record is `XY PATH`, where `X` is the index column and `Y` the
/// working-tree column. The result holds staged and unstaged changes alike.
pub fn parse_status_porcelain(output: &[u8]) -> (r: Result<WorkdirStatus, Error>)
    ensures
        r is Ok,
        r->Ok_0@ == parse_status(output@),
{
    let mut st = WorkdirStatus {
        modified: Vec::new(),
        added: Vec::new(),
        deleted: Vec::new(),
        renamed: Vec::new(),
        untracked: Vec::new(),
    };
    let entries = record_ranges(output);
    let ghost recs = records(output@);
    assert(st@ =~= StatusModel::empty()) by {
        assert(st@.modified =~= Seq::empty());
        assert(st@.added =~= Seq::empty());
        assert(st@.deleted =~= Seq::empty());
        assert(st@.renamed =~= Seq::empty());
        assert(st@.untracked =~= Seq::empty());
    }
    let mut i: usize = 0;
    while i < entries.len()
        invariant
            i <= entries.len(),
            recs == records(output@),
            ranges_within(entries@, output@.len()),
            cut(output@, entries@) == recs,
            status_from(recs, i as int, st@) == parse_status(output@),
        decreases entries.len() - i,
    {
        let (start, end) = entries[i];
        assert(recs[i as int] == output@.subrange(start as int, end as int));
        if end - start < 3 {
            i += 1;
            continue;
        }
        let x = output[start];
        let y = output[start + 1];
        let path = utf8_lossy(&output[start + 3..end]);
        assert(output@.subrange(start + 3, end as int) =~= recs[i as int].skip(3));
        proof {
            lemma_push_views(st, path, path);
        }
        if x == CODE_RENAMED {
            if i + 1 < entries.len() {
                let (old_start, old_end) = entries[i + 1];
                assert(recs[i + 1] == output@.subrange(old_start as int, old_end as int));
                let old_path = utf8_lossy(&output[old_start..old_end]);
                proof {
                    lemma_push_views(st, old_path, path);
                }
                st.renamed.push((old_path, path));
                i += 1;
            }
        } else if x == CODE_UNKNOWN && y == CODE_UNKNOWN {
            st.untracked.push(path);
        } else if x == CODE_ADDED {
            st.added.push(path);
        } else if x == CODE_MODIFIED && y == CODE_NONE {
            st.modified.push(path);
        } else if (x == CODE_NONE || x == CODE_MODIFIED) && y == CODE_MODIFIED {
            st.modified.push(path);
        } else if x == CODE_DELETED || y == CODE_DELETED {
            st.deleted.push(path);
        } else if x == CODE_MODIFIED || y == CODE_MODIFIED {
            st.modified.push(path);
        }
        i += 1;
    }
    Ok(st)
}

/// Pushing a string onto a list adds its text to the list's texts.
proof fn lemma_push_views(st: WorkdirStatus, a: String, b: String)
    ensures
        texts(st.modified@.push(b)) == texts(st.modified@).push(b@),
        texts(st.added@.push(b)) == texts(st.added@).push(b@),
        texts(st.deleted@.push(b)) == texts(st.deleted@).push(b@),
        texts(st.untracked@.push(b)) == texts(st.untracked@).push(b@),
        text_pairs(st.renamed@.push((a, b))) == text_pairs(st.renamed@).push((a@, b@)),
{
    assert(texts(st.modified@.push(b)) =~= texts(st.modified@).push(b@));
    assert(texts(st.added@.push(b)) =~= texts(st.added@).push(b@));
    assert(texts(st.deleted@.push(b)) =~= texts(st.deleted@).push(b@));
    assert(texts(st.untracked@.push(b)) =~= texts(st.untracked@).push(b@));
    assert(text_pairs(st.renamed@.push((a, b))) =~= text_pairs(st.renamed@).push((a@, b@)));
}

} // verus!
