//! The query engine: request routing, handler steps and scheduling,
//! independent of transport and of the concrete backend.
//!
//! A handler is a sequence of named steps. Each step asks one thing of the
//! backend; the caller performs the call and hands the answer back. The first
//! failure ends the handler, and so does an observed cancellation.

pub mod diff;
pub mod scheduler;
pub mod telemetry;

pub use scheduler::{CancellationToken, PendingQuery, Priority, Scheduler};

use crate::api::error::{Error, ErrorCode};
use crate::api::request::{Request, RequestPayload};
use crate::api::response::{IndexStatus, Response, ResponsePayload, StatusView};
use crate::git::{GitBackend, RepoHandle, RepoSnapshot, Workdir, WorkdirStatus};
use crate::index::IndexManager;
use diff::{countable, derived, diff_changes, parse_diff_summary, summary_of};
use vstd::prelude::*;
use vstd::string::StringExecFns;

verus! {

/// Engine configuration.
#[derive(Debug, Clone, Copy)]
pub struct EngineConfig {
    /// Maximum concurrent queries
    pub max_concurrent_queries: usize,
    /// Query timeout in milliseconds
    pub query_timeout_ms: u64,
    /// Cache configuration
    pub cache_enabled: bool,
}

impl Default for EngineConfig {
    fn default() -> (c: EngineConfig)
        ensures
            c.max_concurrent_queries == 10,
            c.query_timeout_ms == 30000,
            c.cache_enabled,
    {
        EngineConfig { max_concurrent_queries: 10, query_timeout_ms: 30000, cache_enabled: true }
    }
}

/// What a handler asks of the backend.
#[derive(Debug)]
pub enum BackendCall {
    /// Open the repository at `path`
    OpenRepo { path: String },
    /// Read HEAD and the current branch
    Snapshot,
    /// Read the working-copy status
    Status,
    /// List names and statuses of the files that differ in `range`
    DiffNameStatus { range: String },
    /// List added and deleted line counts of the files that differ in `range`
    DiffNumstat { range: String },
}

/// What the backend answered.
#[derive(Debug)]
pub enum BackendReply {
    /// The repository is open
    Opened,
    /// The snapshot that was read
    Snapshot(RepoSnapshot),
    /// The status that was read
    Status(WorkdirStatus),
    /// The text of a listing
    Listing(String),
}

/// Where a handler stands between two steps.
#[derive(Debug)]
pub enum Handler {
    /// Status: the repository is being opened
    StatusOpen,
    /// Status: the snapshot is being read
    StatusSnapshot,
    /// Status: the working-copy status is being read
    StatusRead { snapshot: RepoSnapshot },
    /// Diff summary: the repository is being opened
    DiffOpen { range: String },
    /// Diff summary: the name-status listing is being read
    DiffNames { range: String },
    /// Diff summary: the numeric stat listing is being read
    DiffStats { name_status: String },
    /// The handler has produced its result
    Done,
}

impl Handler {
    /// How many backend calls this handler may still make.
    pub open spec fn calls_left(self) -> nat {
        match self {
            Handler::StatusOpen => 3,
            Handler::StatusSnapshot => 2,
            Handler::StatusRead { .. } => 1,
            Handler::DiffOpen { .. } => 3,
            Handler::DiffNames { .. } => 2,
            Handler::DiffStats { .. } => 1,
            Handler::Done => 0,
        }
    }
}

/// What the caller is to do next.
#[derive(Debug)]
pub enum Action {
    /// Perform the call and hand its outcome to `advance`
    Call(BackendCall),
    /// The handler is done with this result
    Finish(Result<ResponsePayload, Error>),
}

/// One move of a handler: its new state and what to do next.
#[derive(Debug)]
pub struct Step {
    pub state: Handler,
    pub action: Action,
}

impl RequestPayload {
    /// The repository that a request is about.
    pub open spec fn repo_path(self) -> String {
        match self {
            RequestPayload::Status(req) => req.repo_path,
            RequestPayload::Log(req) => req.repo_path,
            RequestPayload::Graph(req) => req.repo_path,
            RequestPayload::ShowCommit(req) => req.repo_path,
            RequestPayload::DiffSummary(req) => req.repo_path,
            RequestPayload::DiffContent(req) => req.repo_path,
            RequestPayload::Blame(req) => req.repo_path,
            RequestPayload::Branches(req) => req.repo_path,
            RequestPayload::Tags(req) => req.repo_path,
            RequestPayload::Remotes(req) => req.repo_path,
            RequestPayload::Checkout(req) => req.repo_path,
            RequestPayload::Commit(req) => req.repo_path,
            RequestPayload::Fetch(req) => req.repo_path,
            RequestPayload::Push(req) => req.repo_path,
            RequestPayload::Merge(req) => req.repo_path,
            RequestPayload::Rebase(req) => req.repo_path,
            RequestPayload::Stash(req) => req.repo_path,
            RequestPayload::Watch(req) => req.repo_path,
        }
    }

    /// The name of the handler of a request.
    pub open spec fn handler_name(self) -> Seq<char> {
        match self {
            RequestPayload::Status(_) => "status"@,
            RequestPayload::Log(_) => "log"@,
            RequestPayload::Graph(_) => "graph"@,
            RequestPayload::ShowCommit(_) => "show_commit"@,
            RequestPayload::DiffSummary(_) => "diff_summary"@,
            RequestPayload::DiffContent(_) => "diff_content"@,
            RequestPayload::Blame(_) => "blame"@,
            RequestPayload::Branches(_) => "branches"@,
            RequestPayload::Tags(_) => "tags"@,
            RequestPayload::Remotes(_) => "remotes"@,
            RequestPayload::Checkout(_) => "checkout"@,
            RequestPayload::Commit(_) => "commit"@,
            RequestPayload::Fetch(_) => "fetch"@,
            RequestPayload::Push(_) => "push"@,
            RequestPayload::Merge(_) => "merge"@,
            RequestPayload::Rebase(_) => "rebase"@,
            RequestPayload::Stash(_) => "stash"@,
            RequestPayload::Watch(_) => "watch"@,
        }
    }

    /// What a request without a handler of its own is answered with; `None`
    /// for the requests that are handled.
    pub open spec fn refusal(self) -> Option<Seq<char>> {
        match self {
            RequestPayload::Status(_) => None,
            RequestPayload::Log(_) => Some("Log not implemented"@),
            RequestPayload::Graph(_) => Some("Graph not implemented"@),
            RequestPayload::ShowCommit(_) => Some("Show commit not implemented"@),
            RequestPayload::DiffSummary(_) => None,
            RequestPayload::DiffContent(_) => Some("Diff content not implemented"@),
            RequestPayload::Blame(_) => Some("Blame not implemented"@),
            RequestPayload::Branches(_) => Some("Branches not implemented"@),
            RequestPayload::Tags(_) => Some("Tags not implemented"@),
            RequestPayload::Remotes(_) => Some("Remotes not implemented"@),
            RequestPayload::Checkout(_) => Some("Checkout not implemented"@),
            RequestPayload::Commit(_) => Some("Commit not implemented"@),
            RequestPayload::Fetch(_) => Some("Fetch not implemented"@),
            RequestPayload::Push(_) => Some("Push not implemented"@),
            RequestPayload::Merge(_) => Some("Merge not implemented"@),
            RequestPayload::Rebase(_) => Some("Rebase not implemented"@),
            RequestPayload::Stash(_) => Some("Stash not implemented"@),
            RequestPayload::Watch(_) => Some("Watch not implemented"@),
        }
    }

    /// The name of the handler of this request, as the trace shows it.
    pub fn name(&self) -> (s: &'static str)
        ensures
            s@ == self.handler_name(),
    {
        match self {
            RequestPayload::Status(_) => "status",
            RequestPayload::Log(_) => "log",
            RequestPayload::Graph(_) => "graph",
            RequestPayload::ShowCommit(_) => "show_commit",
            RequestPayload::DiffSummary(_) => "diff_summary",
            RequestPayload::DiffContent(_) => "diff_content",
            RequestPayload::Blame(_) => "blame",
            RequestPayload::Branches(_) => "branches",
            RequestPayload::Tags(_) => "tags",
            RequestPayload::Remotes(_) => "remotes",
            RequestPayload::Checkout(_) => "checkout",
            RequestPayload::Commit(_) => "commit",
            RequestPayload::Fetch(_) => "fetch",
            RequestPayload::Push(_) => "push",
            RequestPayload::Merge(_) => "merge",
            RequestPayload::Rebase(_) => "rebase",
            RequestPayload::Stash(_) => "stash",
            RequestPayload::Watch(_) => "watch",
        }
    }
}

impl BackendCall {
    /// The name of the step that makes this call, as the trace shows it.
    pub fn step_name(&self) -> (s: &'static str)
        ensures
            s@ == (match *self {
                BackendCall::OpenRepo { .. } => "git_open_repo"@,
                BackendCall::Snapshot => "git_snapshot"@,
                BackendCall::Status => "git_status_porcelain"@,
                BackendCall::DiffNameStatus { .. } => "git_diff_name_status"@,
                BackendCall::DiffNumstat { .. } => "git_diff_numstat"@,
            }),
    {
        match self {
            BackendCall::OpenRepo { .. } => "git_open_repo",
            BackendCall::Snapshot => "git_snapshot",
            BackendCall::Status => "git_status_porcelain",
            BackendCall::DiffNameStatus { .. } => "git_diff_name_status",
            BackendCall::DiffNumstat { .. } => "git_diff_numstat",
        }
    }
}

/// Extract repo path from request payload.
pub fn extract_repo_path(payload: &RequestPayload) -> (path: String)
    ensures
        path == payload.repo_path(),
{
    match payload {
        RequestPayload::Status(req) => req.repo_path.clone(),
        RequestPayload::Log(req) => req.repo_path.clone(),
        RequestPayload::Graph(req) => req.repo_path.clone(),
        RequestPayload::ShowCommit(req) => req.repo_path.clone(),
        RequestPayload::DiffSummary(req) => req.repo_path.clone(),
        RequestPayload::DiffContent(req) => req.repo_path.clone(),
        RequestPayload::Blame(req) => req.repo_path.clone(),
        RequestPayload::Branches(req) => req.repo_path.clone(),
        RequestPayload::Tags(req) => req.repo_path.clone(),
        RequestPayload::Remotes(req) => req.repo_path.clone(),
        RequestPayload::Checkout(req) => req.repo_path.clone(),
        RequestPayload::Commit(req) => req.repo_path.clone(),
        RequestPayload::Fetch(req) => req.repo_path.clone(),
        RequestPayload::Push(req) => req.repo_path.clone(),
        RequestPayload::Merge(req) => req.repo_path.clone(),
        RequestPayload::Rebase(req) => req.repo_path.clone(),
        RequestPayload::Stash(req) => req.repo_path.clone(),
        RequestPayload::Watch(req) => req.repo_path.clone(),
    }
}

/// The revision range of a diff: `from` alone where `to` is missing or
/// empty, else `from`, two dots and `to`; a missing `from` stands for HEAD.
pub open spec fn range_text(from: Option<String>, to: Option<String>) -> Seq<char> {
    let from = match from {
        Some(f) => f@,
        None => "HEAD"@,
    };
    match to {
        Some(t) => if t@.len() == 0 {
            from
        } else {
            from + ".."@ + t@
        },
        None => from,
    }
}

/// The revision range of a diff between `from` and `to`.
pub fn diff_range(from: &Option<String>, to: &Option<String>) -> (range: String)
    ensures
        range@ == range_text(*from, *to),
{
    let mut range = match from {
        Some(f) => f.clone(),
        None => String::from_str("HEAD"),
    };
    match to {
        Some(t) => {
            if !t.as_str().is_empty() {
                range.append("..");
                range.append(t.as_str());
            }
        },
        None => {},
    }
    range
}

/// Whether `view` is the status view of `snapshot` and `status`: branch and
/// HEAD come from the snapshot; modified, deleted, renamed and untracked
/// paths from the status; what the status lists as added is what is staged,
/// and the working directory itself has nothing added.
pub open spec fn is_status_view(view: StatusView, snapshot: RepoSnapshot, status: WorkdirStatus) -> bool {
    &&& view.branch == snapshot.branch
    &&& view.head == snapshot.head
    &&& view.workdir.modified == status.modified
    &&& view.workdir.added@.len() == 0
    &&& view.workdir.deleted == status.deleted
    &&& view.workdir.renamed == status.renamed
    &&& view.workdir.untracked == status.untracked
    &&& view.index.staged == status.added
}

/// The status view of `snapshot` and `status`.
pub fn build_status_view(snapshot: RepoSnapshot, status: WorkdirStatus) -> (view: StatusView)
    ensures
        is_status_view(view, snapshot, status),
{
    StatusView {
        branch: snapshot.branch,
        head: snapshot.head,
        workdir: crate::api::response::WorkdirStatus {
            modified: status.modified,
            added: Vec::new(),
            deleted: status.deleted,
            renamed: status.renamed,
            untracked: status.untracked,
        },
        index: IndexStatus { staged: status.added },
    }
}

/// Whether `action` ends the handler with an error of `code` that says
/// `message` and carries nothing else.
pub open spec fn fails_with(action: Action, code: ErrorCode, message: Seq<char>) -> bool {
    &&& action matches Action::Finish(Err(e))
    &&& e.code == code
    &&& e.message@ == message
    &&& e.remediation is None
    &&& e.details is None
}

/// Whether `result` is what the two listings of a diff make: the summary of
/// their change records, or a backend error where the sums do not fit.
pub open spec fn is_diff_result(
    result: Result<ResponsePayload, Error>,
    name_status: Seq<char>,
    numstat: Seq<char>,
) -> bool {
    if countable(diff_changes(name_status, numstat)) {
        &&& result matches Ok(ResponsePayload::DiffSummary(summary))
        &&& summary@ == summary_of(diff_changes(name_status, numstat))
        &&& derived(summary@)
    } else {
        &&& result matches Err(e)
        &&& e.code == ErrorCode::GitBackendError
        &&& e.message@ == "diff counts exceed the machine word"@
        &&& e.remediation is None
        &&& e.details is None
    }
}

/// Whether `step` is the first move for `payload`. A request that was
/// cancelled before it started does no backend work. Status and diff summary
/// start by opening the repository; every other request is refused.
pub open spec fn is_first_step(step: Step, payload: RequestPayload, cancelled: bool) -> bool {
    if cancelled {
        step.state is Done && fails_with(
            step.action,
            ErrorCode::OperationCanceled,
            "Operation canceled"@,
        )
    } else {
        match payload {
            RequestPayload::Status(req) => {
                &&& step.state is StatusOpen
                &&& step.action == Action::Call(BackendCall::OpenRepo { path: req.repo_path })
            },
            RequestPayload::DiffSummary(req) => {
                &&& step.state matches Handler::DiffOpen { range }
                &&& range@ == range_text(req.from, req.to)
                &&& step.action == Action::Call(BackendCall::OpenRepo { path: req.repo_path })
            },
            _ => {
                &&& step.state is Done
                &&& payload.refusal() matches Some(message)
                &&& fails_with(step.action, ErrorCode::GitBackendError, message)
            },
        }
    }
}

/// Whether `step` is the move that follows `state` once the backend
/// answered `reply`. An observed cancellation ends the handler before the
/// answer is looked at. A failed call ends it with that failure. Else the
/// handler goes on to its next call or builds its response. An answer that
/// does not fit the state is an internal error.
pub open spec fn is_next_step(
    step: Step,
    state: Handler,
    reply: Result<BackendReply, Error>,
    cancelled: bool,
) -> bool {
    if cancelled {
        step.state is Done && fails_with(
            step.action,
            ErrorCode::OperationCanceled,
            "Operation canceled"@,
        )
    } else {
        match reply {
            Err(e) => step.state is Done && step.action == Action::Finish(Err(e)),
            Ok(answer) => match (state, answer) {
                (Handler::StatusOpen, BackendReply::Opened) => {
                    &&& step.state is StatusSnapshot
                    &&& step.action == Action::Call(BackendCall::Snapshot)
                },
                (Handler::StatusSnapshot, BackendReply::Snapshot(snapshot)) => {
                    &&& step.state == Handler::StatusRead { snapshot }
                    &&& step.action == Action::Call(BackendCall::Status)
                },
                (Handler::StatusRead { snapshot }, BackendReply::Status(status)) => {
                    &&& step.state is Done
                    &&& step.action matches Action::Finish(Ok(ResponsePayload::Status(view)))
                    &&& is_status_view(view, snapshot, status)
                },
                (Handler::DiffOpen { range }, BackendReply::Opened) => {
                    &&& step.state == Handler::DiffNames { range }
                    &&& step.action == Action::Call(BackendCall::DiffNameStatus { range })
                },
                (Handler::DiffNames { range }, BackendReply::Listing(name_status)) => {
                    &&& step.state == Handler::DiffStats { name_status }
                    &&& step.action == Action::Call(BackendCall::DiffNumstat { range })
                },
                (Handler::DiffStats { name_status }, BackendReply::Listing(numstat)) => {
                    &&& step.state is Done
                    &&& step.action matches Action::Finish(result)
                    &&& is_diff_result(result, name_status@, numstat@)
                },
                _ => step.state is Done && fails_with(
                    step.action,
                    ErrorCode::Internal,
                    "Unexpected backend reply"@,
                ),
            },
        }
    }
}

/// Whether the token, if there is one, has been set.
fn poll(token: Option<&CancellationToken>) -> (cancelled: bool)
    ensures
        token is None ==> !cancelled,
{
    match token {
        Some(t) => t.is_cancelled(),
        None => false,
    }
}

/// Whether `answer` is the kind of reply that `call` brings when it
/// succeeds.
pub open spec fn fits_call(call: BackendCall, answer: BackendReply) -> bool {
    match call {
        BackendCall::OpenRepo { .. } => answer is Opened,
        BackendCall::Snapshot => answer is Snapshot,
        BackendCall::Status => answer is Status,
        BackendCall::DiffNameStatus { .. } => answer is Listing,
        BackendCall::DiffNumstat { .. } => answer is Listing,
    }
}

/// Whether `reply` is the failure of a call that found no open repository.
pub open spec fn not_open(reply: Result<BackendReply, Error>) -> bool {
    &&& reply matches Err(e)
    &&& e.code == ErrorCode::Internal
    &&& e.message@ == "Repository is not open"@
    &&& e.remediation is None
    &&& e.details is None
}

/// Make one call on the backend. The handle that `OpenRepo` yields is kept
/// for the calls that follow, and only a successful `OpenRepo` changes the
/// handle. A call that needs a handle before one is there fails without
/// touching the backend. What a call brings on success is of its own kind;
/// whether it succeeds is the backend's to say.
fn perform<B: GitBackend>(backend: &B, handle: &mut Option<B::Handle>, call: BackendCall) -> (reply:
    Result<BackendReply, Error>)
    ensures
        reply matches Ok(answer) ==> fits_call(call, answer),
        call is OpenRepo && reply is Ok ==> *final(handle) is Some,
        !(call is OpenRepo && reply is Ok) ==> *final(handle) == *old(handle),
        !(call is OpenRepo) && *old(handle) is None ==> not_open(reply),
{
    match call {
        BackendCall::OpenRepo { path } => match backend.open_repo(path.as_str()) {
            Ok(opened) => {
                *handle = Some(opened);
                Ok(BackendReply::Opened)
            },
            Err(e) => Err(e),
        },
        BackendCall::Snapshot => match handle {
            Some(h) => match h.snapshot() {
                Ok(snapshot) => Ok(BackendReply::Snapshot(snapshot)),
                Err(e) => Err(e),
            },
            None => Err(Error::with_message(ErrorCode::Internal, "Repository is not open")),
        },
        BackendCall::Status => match handle {
            Some(h) => match h.workdir().status() {
                Ok(status) => Ok(BackendReply::Status(status)),
                Err(e) => Err(e),
            },
            None => Err(Error::with_message(ErrorCode::Internal, "Repository is not open")),
        },
        BackendCall::DiffNameStatus { range } => match handle {
            Some(h) => match h.diff_name_status(range.as_str()) {
                Ok(text) => Ok(BackendReply::Listing(text)),
                Err(e) => Err(e),
            },
            None => Err(Error::with_message(ErrorCode::Internal, "Repository is not open")),
        },
        BackendCall::DiffNumstat { range } => match handle {
            Some(h) => match h.diff_numstat(range.as_str()) {
                Ok(text) => Ok(BackendReply::Listing(text)),
                Err(e) => Err(e),
            },
            None => Err(Error::with_message(ErrorCode::Internal, "Repository is not open")),
        },
    }
}

/// Whether `answer` is of the kind that `payload` asks for: a status view
/// for a status request, a diff summary for a diff summary request.
pub open spec fn answers(payload: RequestPayload, answer: ResponsePayload) -> bool {
    match payload {
        RequestPayload::Status(_) => answer is Status,
        RequestPayload::DiffSummary(_) => answer is DiffSummary,
        _ => false,
    }
}

/// Whether a handler that stands at `state` with `action` to do is on its
/// way to an answer for `payload`: a call belongs to the handler of that
/// request, and a payload it finishes with is of the kind asked for.
pub open spec fn on_track(state: Handler, action: Action, payload: RequestPayload) -> bool {
    match action {
        Action::Finish(Ok(answer)) => answers(payload, answer),
        Action::Finish(Err(_)) => true,
        Action::Call(_) => match state {
            Handler::StatusOpen => payload is Status,
            Handler::StatusSnapshot => payload is Status,
            Handler::StatusRead { .. } => payload is Status,
            Handler::DiffOpen { .. } => payload is DiffSummary,
            Handler::DiffNames { .. } => payload is DiffSummary,
            Handler::DiffStats { .. } => payload is DiffSummary,
            Handler::Done => false,
        },
    }
}

fn stop(code: ErrorCode, message: &str) -> (step: Step)
    ensures
        step.state is Done,
        fails_with(step.action, code, message@),
{
    Step { state: Handler::Done, action: Action::Finish(Err(Error::with_message(code, message))) }
}

/// Long-lived engine instance: its configuration, its caches and its
/// scheduler. The backend that performs the calls is the caller's.
#[derive(Debug)]
pub struct RepoEngine {
    /// Engine configuration
    pub config: EngineConfig,
    /// Index manager for caching
    pub index_manager: IndexManager,
    /// Scheduler for query execution
    pub scheduler: Scheduler,
}

impl RepoEngine {
    /// Create a new engine with default configuration.
    pub fn new() -> (engine: RepoEngine)
        ensures
            engine.config.max_concurrent_queries == 10,
            engine.config.query_timeout_ms == 30000,
            engine.config.cache_enabled,
            engine.index_manager.residents() == crate::index::Residents::empty(),
            engine.index_manager.policy.max_total_bytes == 268435456,
            engine.index_manager.policy.max_per_repo_bytes == 268435456,
            engine.index_manager.policy.eviction == crate::index::EvictionStrategy::Lru,
            engine.index_manager.clock == 0,
            engine.scheduler@ == scheduler::Tiers::empty(),
    {
        RepoEngine::with_config(EngineConfig::default())
    }

    /// Create a new engine with custom configuration.
    pub fn with_config(config: EngineConfig) -> (engine: RepoEngine)
        ensures
            engine.config == config,
            engine.index_manager.residents() == crate::index::Residents::empty(),
            engine.index_manager.policy.max_total_bytes == 268435456,
            engine.index_manager.policy.max_per_repo_bytes == 268435456,
            engine.index_manager.policy.eviction == crate::index::EvictionStrategy::Lru,
            engine.index_manager.clock == 0,
            engine.scheduler@ == scheduler::Tiers::empty(),
    {
        RepoEngine { config, index_manager: IndexManager::new(), scheduler: Scheduler::new() }
    }

    /// Whether one more query may start while `running` queries run: the
    /// configured maximum bounds how many run at once, and the rest wait.
    pub fn admits(&self, running: usize) -> (ok: bool)
        ensures
            ok == (running < self.config.max_concurrent_queries),
    {
        running < self.config.max_concurrent_queries
    }

    /// The failure of a query that has run for `elapsed_ms`, if the
    /// configured timeout has passed.
    pub fn timed_out(&self, elapsed_ms: u64) -> (r: Option<Error>)
        ensures
            elapsed_ms < self.config.query_timeout_ms ==> r is None,
            elapsed_ms >= self.config.query_timeout_ms ==> r is Some && r->0.code
                == ErrorCode::Timeout && r->0.message@ == "Query timed out"@ && r->0.remediation is None
                && r->0.details is None,
    {
        if elapsed_ms >= self.config.query_timeout_ms {
            Some(Error::with_message(ErrorCode::Timeout, "Query timed out"))
        } else {
            None
        }
    }

    /// Route a request to its handler and make the first move.
    pub fn begin(&self, payload: RequestPayload, cancelled: bool) -> (step: Step)
        ensures
            is_first_step(step, payload, cancelled),
    {
        if cancelled {
            return stop(ErrorCode::OperationCanceled, "Operation canceled");
        }
        match payload {
            RequestPayload::Status(req) => Step {
                state: Handler::StatusOpen,
                action: Action::Call(BackendCall::OpenRepo { path: req.repo_path }),
            },
            RequestPayload::DiffSummary(req) => {
                let range = diff_range(&req.from, &req.to);
                Step {
                    state: Handler::DiffOpen { range },
                    action: Action::Call(BackendCall::OpenRepo { path: req.repo_path }),
                }
            },
            RequestPayload::Log(_) => stop(ErrorCode::GitBackendError, "Log not implemented"),
            RequestPayload::Graph(_) => stop(ErrorCode::GitBackendError, "Graph not implemented"),
            RequestPayload::ShowCommit(_) => stop(
                ErrorCode::GitBackendError,
                "Show commit not implemented",
            ),
            RequestPayload::DiffContent(_) => stop(
                ErrorCode::GitBackendError,
                "Diff content not implemented",
            ),
            RequestPayload::Blame(_) => stop(ErrorCode::GitBackendError, "Blame not implemented"),
            RequestPayload::Branches(_) => stop(
                ErrorCode::GitBackendError,
                "Branches not implemented",
            ),
            RequestPayload::Tags(_) => stop(ErrorCode::GitBackendError, "Tags not implemented"),
            RequestPayload::Remotes(_) => stop(
                ErrorCode::GitBackendError,
                "Remotes not implemented",
            ),
            RequestPayload::Checkout(_) => stop(
                ErrorCode::GitBackendError,
                "Checkout not implemented",
            ),
            RequestPayload::Commit(_) => stop(ErrorCode::GitBackendError, "Commit not implemented"),
            RequestPayload::Fetch(_) => stop(ErrorCode::GitBackendError, "Fetch not implemented"),
            RequestPayload::Push(_) => stop(ErrorCode::GitBackendError, "Push not implemented"),
            RequestPayload::Merge(_) => stop(ErrorCode::GitBackendError, "Merge not implemented"),
            RequestPayload::Rebase(_) => stop(ErrorCode::GitBackendError, "Rebase not implemented"),
            RequestPayload::Stash(_) => stop(ErrorCode::GitBackendError, "Stash not implemented"),
            RequestPayload::Watch(_) => stop(ErrorCode::GitBackendError, "Watch not implemented"),
        }
    }

    /// Make the move that follows `state` once the backend answered.
    pub fn advance(
        &self,
        state: Handler,
        reply: Result<BackendReply, Error>,
        cancelled: bool,
    ) -> (step: Step)
        ensures
            is_next_step(step, state, reply, cancelled),
            step.action is Call ==> step.state.calls_left() < state.calls_left(),
    {
        if cancelled {
            return stop(ErrorCode::OperationCanceled, "Operation canceled");
        }
        let answer = match reply {
            Ok(answer) => answer,
            Err(e) => {
                return Step { state: Handler::Done, action: Action::Finish(Err(e)) };
            },
        };
        match (state, answer) {
            (Handler::StatusOpen, BackendReply::Opened) => Step {
                state: Handler::StatusSnapshot,
                action: Action::Call(BackendCall::Snapshot),
            },
            (Handler::StatusSnapshot, BackendReply::Snapshot(snapshot)) => Step {
                state: Handler::StatusRead { snapshot },
                action: Action::Call(BackendCall::Status),
            },
            (Handler::StatusRead { snapshot }, BackendReply::Status(status)) => Step {
                state: Handler::Done,
                action: Action::Finish(
                    Ok(ResponsePayload::Status(build_status_view(snapshot, status))),
                ),
            },
            (Handler::DiffOpen { range }, BackendReply::Opened) => {
                let again = range.clone();
                Step {
                    state: Handler::DiffNames { range },
                    action: Action::Call(BackendCall::DiffNameStatus { range: again }),
                }
            },
            (Handler::DiffNames { range }, BackendReply::Listing(name_status)) => Step {
                state: Handler::DiffStats { name_status },
                action: Action::Call(BackendCall::DiffNumstat { range }),
            },
            (Handler::DiffStats { name_status }, BackendReply::Listing(numstat)) => {
                let result = match parse_diff_summary(name_status.as_str(), numstat.as_str()) {
                    Ok(summary) => Ok(ResponsePayload::DiffSummary(summary)),
                    Err(e) => Err(e),
                };
                Step { state: Handler::Done, action: Action::Finish(result) }
            },
            _ => stop(ErrorCode::Internal, "Unexpected backend reply"),
        }
    }

    /// Handle a request against `backend` and return the response. Every
    /// outcome is a payload or an error inside the response, under the id of
    /// the request. A request without a handler is refused before the backend
    /// is touched. The steps run in order, and the first failure is the
    /// result.
    pub fn handle<B: GitBackend>(&self, backend: &B, request: Request) -> (response: Response)
        ensures
            response.id == request.id,
            response.result matches Ok(answer) ==> answers(request.payload, answer),
            request.payload.refusal() matches Some(message) ==> fails_with(
                Action::Finish(response.result),
                ErrorCode::GitBackendError,
                message,
            ),
    {
        let Request { version: _, id, payload } = request;
        let result = self.run(backend, payload, None);
        self.respond(id, result)
    }

    /// Handle a query that came out of the scheduler. Its token is polled
    /// before any backend work and again after every backend call; once it is
    /// seen set, the result so far is dropped and the response says that the
    /// operation was cancelled.
    pub fn handle_pending<B: GitBackend>(&self, backend: &B, query: PendingQuery) -> (response:
        Response)
        ensures
            response.id == query.id,
            response.result matches Ok(answer) ==> answers(query.payload, answer),
    {
        let PendingQuery { id, payload, cancellation } = query;
        let result = self.run(backend, payload, Some(&cancellation));
        self.respond(id, result)
    }

    fn run<B: GitBackend>(
        &self,
        backend: &B,
        payload: RequestPayload,
        token: Option<&CancellationToken>,
    ) -> (result: Result<ResponsePayload, Error>)
        ensures
            result matches Ok(answer) ==> answers(payload, answer),
            token is None ==> (payload.refusal() matches Some(message) ==> fails_with(
                Action::Finish(result),
                ErrorCode::GitBackendError,
                message,
            )),
    {
        let first = self.begin(payload, poll(token));
        let Step { state, action } = first;
        let mut state = state;
        let mut action = action;
        let mut handle: Option<B::Handle> = None;
        loop
            invariant
                token is None ==> (payload.refusal() matches Some(message) ==> fails_with(
                    action,
                    ErrorCode::GitBackendError,
                    message,
                )),
                action is Finish ==> state is Done,
                on_track(state, action, payload),
            decreases
                state.calls_left(),
                (if action is Call {
                    1nat
                } else {
                    0nat
                }),
        {
            match action {
                Action::Finish(result) => {
                    return result;
                },
                Action::Call(call) => {
                    let reply = perform(backend, &mut handle, call);
                    let next = self.advance(state, reply, poll(token));
                    let Step { state: next_state, action: next_action } = next;
                    state = next_state;
                    action = next_action;
                },
            }
        }
    }

    /// The response to the request `id` with the given result.
    pub fn respond(&self, id: String, result: Result<ResponsePayload, Error>) -> (response: Response)
        ensures
            response.id == id,
            response.result == result,
    {
        Response { id, result }
    }
}

} // verus!
