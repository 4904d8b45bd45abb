use repo_lens::api::bounds::{Cursor, MaxBytes, MaxHunks, PageSize, WindowSize};
use repo_lens::api::error::{Error, ErrorCode};
use repo_lens::api::paging::Paging;
use repo_lens::api::request::{
    BlameRequest, BranchesRequest, CheckoutRequest, CommitRequest, DiffContentRequest,
    DiffSummaryRequest, FetchRequest, GraphRequest, LogRequest, MergeRequest, PushRequest,
    RebaseRequest, RemotesRequest, Request, RequestPayload, ShowCommitRequest, StashRequest,
    StatusRequest, TagsRequest, WatchRequest,
};
use repo_lens::api::response::{ChangeType, DiffSummary, ResponsePayload};
use repo_lens::api::version::ApiVersion;
use repo_lens::engine::{
    build_status_view, diff_range, extract_repo_path, Action, BackendCall, BackendReply,
    CancellationToken, EngineConfig, Handler, PendingQuery, RepoEngine, Step,
};
use repo_lens::git::{
    Blob, Commit, GitBackend, IndexEntry, IndexReader, ObjectStore, RefInfo, RefsStore, RepoHandle,
    RepoSnapshot, StubGitBackend, Tree, Workdir, WorkdirStatus,
};
use std::cell::RefCell;
use std::rc::Rc;

fn status_payload(path: &str) -> RequestPayload {
    RequestPayload::Status(StatusRequest { repo_path: path.to_string() })
}

fn diff_payload(path: &str, from: Option<&str>, to: Option<&str>) -> RequestPayload {
    RequestPayload::DiffSummary(DiffSummaryRequest {
        repo_path: path.to_string(),
        from: from.map(|s| s.to_string()),
        to: to.map(|s| s.to_string()),
        max_bytes: MaxBytes::try_from(1024 * 1024).unwrap(),
        max_hunks: MaxHunks::try_from(1000).unwrap(),
    })
}

fn unhandled(path: &str) -> Vec<(RequestPayload, &'static str, &'static str)> {
    let p = || path.to_string();
    vec![
        (
            RequestPayload::Log(LogRequest {
                repo_path: p(),
                paging: Paging {
                    page_size: PageSize::try_from(50).unwrap(),
                    cursor: Cursor::initial(),
                },
                revision_range: None,
            }),
            "log",
            "Log not implemented",
        ),
        (
            RequestPayload::Graph(GraphRequest {
                repo_path: p(),
                window_size: WindowSize::try_from(50).unwrap(),
                cursor: Cursor::initial(),
                revision_range: None,
            }),
            "graph",
            "Graph not implemented",
        ),
        (
            RequestPayload::ShowCommit(ShowCommitRequest { repo_path: p(), commit_id: "c".into() }),
            "show_commit",
            "Show commit not implemented",
        ),
        (
            RequestPayload::DiffContent(DiffContentRequest {
                repo_path: p(),
                from: None,
                to: None,
                path: None,
                max_bytes: MaxBytes::try_from(1).unwrap(),
            }),
            "diff_content",
            "Diff content not implemented",
        ),
        (
            RequestPayload::Blame(BlameRequest { repo_path: p(), path: "f".into(), revision: None }),
            "blame",
            "Blame not implemented",
        ),
        (
            RequestPayload::Branches(BranchesRequest { repo_path: p() }),
            "branches",
            "Branches not implemented",
        ),
        (RequestPayload::Tags(TagsRequest { repo_path: p() }), "tags", "Tags not implemented"),
        (
            RequestPayload::Remotes(RemotesRequest { repo_path: p() }),
            "remotes",
            "Remotes not implemented",
        ),
        (
            RequestPayload::Checkout(CheckoutRequest {
                repo_path: p(),
                target: "main".into(),
                create_branch: false,
            }),
            "checkout",
            "Checkout not implemented",
        ),
        (
            RequestPayload::Commit(CommitRequest {
                repo_path: p(),
                message: "m".into(),
                author_name: None,
                author_email: None,
            }),
            "commit",
            "Commit not implemented",
        ),
        (
            RequestPayload::Fetch(FetchRequest { repo_path: p(), remote: None, refspecs: None }),
            "fetch",
            "Fetch not implemented",
        ),
        (
            RequestPayload::Push(PushRequest {
                repo_path: p(),
                remote: None,
                refspecs: None,
                force: false,
            }),
            "push",
            "Push not implemented",
        ),
        (
            RequestPayload::Merge(MergeRequest { repo_path: p(), source: "s".into(), message: None }),
            "merge",
            "Merge not implemented",
        ),
        (
            RequestPayload::Rebase(RebaseRequest { repo_path: p(), onto: "o".into(), upstream: None }),
            "rebase",
            "Rebase not implemented",
        ),
        (
            RequestPayload::Stash(StashRequest { repo_path: p(), message: None }),
            "stash",
            "Stash not implemented",
        ),
        (RequestPayload::Watch(WatchRequest { repo_path: p() }), "watch", "Watch not implemented"),
    ]
}

fn finished(step: Step) -> Result<ResponsePayload, Error> {
    assert!(matches!(step.state, Handler::Done));
    match step.action {
        Action::Finish(result) => result,
        Action::Call(call) => panic!("expected a result, got the call {:?}", call),
    }
}

fn called(step: Step) -> (Handler, BackendCall) {
    match step.action {
        Action::Call(call) => (step.state, call),
        Action::Finish(result) => panic!("expected a call, got the result {:?}", result),
    }
}

fn snapshot(head: Option<&str>, branch: Option<&str>) -> RepoSnapshot {
    RepoSnapshot {
        path: "/repo".to_string(),
        head: head.map(|s| s.to_string()),
        branch: branch.map(|s| s.to_string()),
        refs: Vec::new(),
    }
}

fn workdir_status() -> WorkdirStatus {
    WorkdirStatus {
        modified: vec!["m.txt".to_string()],
        added: vec!["a.txt".to_string()],
        deleted: vec!["d.txt".to_string()],
        renamed: vec![("old".to_string(), "new".to_string())],
        untracked: vec!["u.txt".to_string()],
    }
}

#[test]
fn default_configuration() {
    let config = EngineConfig::default();
    assert_eq!(config.max_concurrent_queries, 10);
    assert_eq!(config.query_timeout_ms, 30000);
    assert!(config.cache_enabled);
    let engine = RepoEngine::new();
    assert_eq!(engine.config.max_concurrent_queries, 10);
    assert_eq!(engine.scheduler.pending(), 0);
    assert_eq!(engine.index_manager.bytes_in_use(), 0);
    let custom = EngineConfig { max_concurrent_queries: 2, query_timeout_ms: 5, cache_enabled: false };
    let engine = RepoEngine::with_config(custom);
    assert_eq!(engine.config.max_concurrent_queries, 2);
    assert_eq!(engine.config.query_timeout_ms, 5);
    assert!(!engine.config.cache_enabled);
}

#[test]
fn concurrency_limit_and_timeout() {
    let engine = RepoEngine::with_config(EngineConfig {
        max_concurrent_queries: 2,
        query_timeout_ms: 100,
        cache_enabled: true,
    });
    assert!(engine.admits(0));
    assert!(engine.admits(1));
    assert!(!engine.admits(2));
    assert!(!engine.admits(3));
    assert!(engine.timed_out(0).is_none());
    assert!(engine.timed_out(99).is_none());
    let e = engine.timed_out(100).unwrap();
    assert_eq!(e.code, ErrorCode::Timeout);
    assert_eq!(e.message, "Query timed out");
    assert_eq!(engine.timed_out(u64::MAX).unwrap().code, ErrorCode::Timeout);
}

#[test]
fn repo_path_of_every_request() {
    assert_eq!(extract_repo_path(&status_payload("/a")), "/a");
    assert_eq!(extract_repo_path(&diff_payload("/b", None, None)), "/b");
    for (payload, _, _) in unhandled("/some/repo") {
        assert_eq!(extract_repo_path(&payload), "/some/repo");
    }
}

#[test]
fn handler_names() {
    assert_eq!(status_payload("/a").name(), "status");
    assert_eq!(diff_payload("/a", None, None).name(), "diff_summary");
    for (payload, name, _) in unhandled("/r") {
        assert_eq!(payload.name(), name);
    }
}

#[test]
fn step_names() {
    assert_eq!(BackendCall::OpenRepo { path: "p".into() }.step_name(), "git_open_repo");
    assert_eq!(BackendCall::Snapshot.step_name(), "git_snapshot");
    assert_eq!(BackendCall::Status.step_name(), "git_status_porcelain");
    assert_eq!(BackendCall::DiffNameStatus { range: "r".into() }.step_name(), "git_diff_name_status");
    assert_eq!(BackendCall::DiffNumstat { range: "r".into() }.step_name(), "git_diff_numstat");
}

#[test]
fn diff_range_forms() {
    let s = |t: &str| Some(t.to_string());
    assert_eq!(diff_range(&None, &None), "HEAD");
    assert_eq!(diff_range(&s("C0"), &None), "C0");
    assert_eq!(diff_range(&s("C0"), &s("")), "C0");
    assert_eq!(diff_range(&s("C0"), &s("C1")), "C0..C1");
    assert_eq!(diff_range(&None, &s("C1")), "HEAD..C1");
    assert_eq!(diff_range(&s(""), &s("C1")), "..C1");
}

#[test]
fn status_view_moves_added_paths_to_the_index() {
    let view = build_status_view(snapshot(Some("abc"), Some("main")), workdir_status());
    assert_eq!(view.head.as_deref(), Some("abc"));
    assert_eq!(view.branch.as_deref(), Some("main"));
    assert_eq!(view.workdir.modified, vec!["m.txt"]);
    assert!(view.workdir.added.is_empty());
    assert_eq!(view.workdir.deleted, vec!["d.txt"]);
    assert_eq!(view.workdir.renamed, vec![("old".to_string(), "new".to_string())]);
    assert_eq!(view.workdir.untracked, vec!["u.txt"]);
    assert_eq!(view.index.staged, vec!["a.txt"]);
}

#[test]
fn unhandled_requests_are_refused_without_backend_work() {
    let engine = RepoEngine::new();
    for (payload, _, message) in unhandled("/r") {
        let e = finished(engine.begin(payload, false)).unwrap_err();
        assert_eq!(e.code, ErrorCode::GitBackendError);
        assert_eq!(e.message, message);
        assert!(e.remediation.is_none());
        assert!(e.details.is_none());
    }
}

#[test]
fn status_handler_steps() {
    let engine = RepoEngine::new();
    let (state, call) = called(engine.begin(status_payload("/repo"), false));
    assert!(matches!(state, Handler::StatusOpen));
    assert!(matches!(call, BackendCall::OpenRepo { path } if path == "/repo"));
    let (state, call) = called(engine.advance(state, Ok(BackendReply::Opened), false));
    assert!(matches!(state, Handler::StatusSnapshot));
    assert!(matches!(call, BackendCall::Snapshot));
    let reply = Ok(BackendReply::Snapshot(snapshot(Some("abc"), None)));
    let (state, call) = called(engine.advance(state, reply, false));
    assert!(matches!(&state, Handler::StatusRead { snapshot } if snapshot.head.as_deref() == Some("abc")));
    assert!(matches!(call, BackendCall::Status));
    let reply = Ok(BackendReply::Status(workdir_status()));
    match finished(engine.advance(state, reply, false)).unwrap() {
        ResponsePayload::Status(view) => {
            assert_eq!(view.head.as_deref(), Some("abc"));
            assert!(view.branch.is_none());
            assert_eq!(view.index.staged, vec!["a.txt"]);
            assert_eq!(view.workdir.untracked, vec!["u.txt"]);
        }
        other => panic!("unexpected payload {:?}", other),
    }
}

fn run_diff(name_status: &str, numstat: &str) -> Result<DiffSummary, Error> {
    let engine = RepoEngine::new();
    let (state, call) = called(engine.begin(diff_payload("/repo", Some("C0"), Some("C1")), false));
    assert!(matches!(&state, Handler::DiffOpen { range } if range == "C0..C1"));
    assert!(matches!(call, BackendCall::OpenRepo { path } if path == "/repo"));
    let (state, call) = called(engine.advance(state, Ok(BackendReply::Opened), false));
    assert!(matches!(&state, Handler::DiffNames { range } if range == "C0..C1"));
    assert!(matches!(call, BackendCall::DiffNameStatus { range } if range == "C0..C1"));
    let reply = Ok(BackendReply::Listing(name_status.to_string()));
    let (state, call) = called(engine.advance(state, reply, false));
    assert!(matches!(&state, Handler::DiffStats { name_status: text } if text == name_status));
    assert!(matches!(call, BackendCall::DiffNumstat { range } if range == "C0..C1"));
    let reply = Ok(BackendReply::Listing(numstat.to_string()));
    match finished(engine.advance(state, reply, false)) {
        Ok(ResponsePayload::DiffSummary(summary)) => Ok(summary),
        Ok(other) => panic!("unexpected payload {:?}", other),
        Err(e) => Err(e),
    }
}

#[test]
fn diff_of_first_two_fixture_commits() {
    let summary = run_diff("M\ta.txt\nA\tnew.txt\n", "3\t2\ta.txt\n2\t0\tnew.txt\n").unwrap();
    assert_eq!(summary.files_changed, 2);
    let modified = summary.changes.iter().filter(|c| matches!(c.change_type, ChangeType::Modified));
    let added = summary.changes.iter().filter(|c| matches!(c.change_type, ChangeType::Added));
    assert_eq!(modified.count(), 1);
    assert_eq!(added.count(), 1);
    assert_eq!((summary.additions, summary.deletions), (5, 2));
}

#[test]
fn diff_of_the_rename_commit() {
    let summary = run_diff("R100\tdir/b.txt\tdir/c.txt\n", "0\t0\tdir/{b.txt => c.txt}\n").unwrap();
    assert_eq!(summary.files_changed, 1);
    assert!(matches!(summary.changes[0].change_type, ChangeType::Renamed));
    assert_eq!(summary.changes[0].old_path.as_deref(), Some("dir/b.txt"));
    assert_eq!(summary.changes[0].path, "dir/c.txt");
}

#[test]
fn diff_of_the_delete_and_binary_commit() {
    let summary = run_diff("A\tbin.dat\nD\tnew.txt\n", "-\t-\tbin.dat\n0\t2\tnew.txt\n").unwrap();
    assert!(summary.changes.iter().any(|c| matches!(c.change_type, ChangeType::Deleted)));
    assert!(summary.changes.iter().any(|c| matches!(c.change_type, ChangeType::Added)));
    assert_eq!(summary.files_changed, 2);
    assert_eq!((summary.additions, summary.deletions), (0, 2));
}

#[test]
fn diff_with_overflowing_counts_fails() {
    let numstat = format!("{}\t0\ta\n{}\t0\tb\n", usize::MAX, usize::MAX);
    let e = run_diff("M\ta\nM\tb\n", &numstat).unwrap_err();
    assert_eq!(e.code, ErrorCode::GitBackendError);
}

#[test]
fn first_failure_ends_the_handler() {
    let engine = RepoEngine::new();
    let failure = || Error::new(ErrorCode::RepoNotFound, "Not a git repository: /repo".to_string());
    for state in [
        Handler::StatusOpen,
        Handler::StatusSnapshot,
        Handler::StatusRead { snapshot: snapshot(None, None) },
        Handler::DiffOpen { range: "r".into() },
        Handler::DiffNames { range: "r".into() },
        Handler::DiffStats { name_status: "M\ta\n".into() },
    ] {
        let e = finished(engine.advance(state, Err(failure()), false)).unwrap_err();
        assert_eq!(e.code, ErrorCode::RepoNotFound);
        assert_eq!(e.message, "Not a git repository: /repo");
    }
}

#[test]
fn cancellation_is_seen_at_every_step_boundary() {
    let engine = RepoEngine::new();
    let e = finished(engine.begin(status_payload("/repo"), true)).unwrap_err();
    assert_eq!(e.code, ErrorCode::OperationCanceled);
    assert_eq!(e.message, "Operation canceled");
    let e = finished(engine.begin(diff_payload("/repo", None, None), true)).unwrap_err();
    assert_eq!(e.code, ErrorCode::OperationCanceled);
    for (payload, _, _) in unhandled("/r") {
        let e = finished(engine.begin(payload, true)).unwrap_err();
        assert_eq!(e.code, ErrorCode::OperationCanceled);
    }
    let reply = Ok(BackendReply::Status(workdir_status()));
    let state = Handler::StatusRead { snapshot: snapshot(None, None) };
    let e = finished(engine.advance(state, reply, true)).unwrap_err();
    assert_eq!(e.code, ErrorCode::OperationCanceled);
    let failure = Err(Error::new(ErrorCode::GitBackendError, "boom".to_string()));
    let e = finished(engine.advance(Handler::DiffOpen { range: "r".into() }, failure, true))
        .unwrap_err();
    assert_eq!(e.code, ErrorCode::OperationCanceled);
}

#[test]
fn reply_that_does_not_fit_the_state_is_an_internal_error() {
    let engine = RepoEngine::new();
    let cases: Vec<(Handler, BackendReply)> = vec![
        (Handler::StatusOpen, BackendReply::Listing("x".into())),
        (Handler::StatusSnapshot, BackendReply::Opened),
        (Handler::StatusRead { snapshot: snapshot(None, None) }, BackendReply::Opened),
        (Handler::DiffOpen { range: "r".into() }, BackendReply::Status(workdir_status())),
        (Handler::DiffNames { range: "r".into() }, BackendReply::Opened),
        (Handler::DiffStats { name_status: "".into() }, BackendReply::Snapshot(snapshot(None, None))),
        (Handler::Done, BackendReply::Opened),
    ];
    for (state, reply) in cases {
        let e = finished(engine.advance(state, Ok(reply), false)).unwrap_err();
        assert_eq!(e.code, ErrorCode::Internal);
        assert_eq!(e.message, "Unexpected backend reply");
    }
}

#[test]
fn respond_keeps_id_and_result() {
    let engine = RepoEngine::new();
    let response = engine.respond("req-7".to_string(), Err(Error::new(ErrorCode::Timeout, "t".into())));
    assert_eq!(response.id, "req-7");
    assert_eq!(response.result.unwrap_err().code, ErrorCode::Timeout);
}

#[derive(Clone, Default)]
struct Log(Rc<RefCell<Vec<String>>>);

impl Log {
    fn push(&self, line: String) {
        self.0.borrow_mut().push(line);
    }

    fn lines(&self) -> Vec<String> {
        self.0.borrow().clone()
    }
}

struct FakeBackend {
    log: Log,
    repo: String,
    fail_at: Option<&'static str>,
    cancel_after_open: Option<CancellationToken>,
}

struct FakeHandle {
    log: Log,
    fail_at: Option<&'static str>,
    work: FakeWorkdir,
    objects: NoStore,
}

struct FakeWorkdir {
    log: Log,
    fail_at: Option<&'static str>,
}

struct NoStore;

fn failing(step: &str) -> Error {
    Error::new(ErrorCode::GitBackendError, format!("{} failed", step))
}

impl GitBackend for FakeBackend {
    type Handle = FakeHandle;

    fn open_repo(&self, path: &str) -> Result<FakeHandle, Error> {
        self.log.push(format!("open {}", path));
        if let Some(token) = &self.cancel_after_open {
            token.cancel();
        }
        if path != self.repo {
            return Err(Error::new(
                ErrorCode::RepoNotFound,
                format!("Not a git repository: {}", path),
            ));
        }
        Ok(FakeHandle {
            log: self.log.clone(),
            fail_at: self.fail_at,
            work: FakeWorkdir { log: self.log.clone(), fail_at: self.fail_at },
            objects: NoStore,
        })
    }

    fn is_repo(&self, path: &str) -> Result<bool, Error> {
        Ok(path == self.repo)
    }
}

impl RepoHandle for FakeHandle {
    type Objects = NoStore;
    type Refs = NoStore;
    type Work = FakeWorkdir;
    type Index = NoStore;

    fn snapshot(&self) -> Result<RepoSnapshot, Error> {
        self.log.push("snapshot".to_string());
        if self.fail_at == Some("snapshot") {
            return Err(failing("snapshot"));
        }
        Ok(snapshot(Some("0123abc"), Some("main")))
    }

    fn object_store(&self) -> &NoStore {
        &self.objects
    }

    fn refs_store(&self) -> &NoStore {
        &self.objects
    }

    fn workdir(&self) -> &FakeWorkdir {
        &self.work
    }

    fn index_reader(&self) -> &NoStore {
        &self.objects
    }

    fn diff_name_status(&self, range: &str) -> Result<String, Error> {
        self.log.push(format!("name-status {}", range));
        if self.fail_at == Some("name-status") {
            return Err(failing("name-status"));
        }
        Ok(match range {
            "C0..C1" => "M\ta.txt\nA\tnew.txt\n",
            "C1..C2" => "R100\tdir/b.txt\tdir/c.txt\n",
            "C2..C3" => "A\tbin.dat\nD\tnew.txt\n",
            _ => "",
        }
        .to_string())
    }

    fn diff_numstat(&self, range: &str) -> Result<String, Error> {
        self.log.push(format!("numstat {}", range));
        if self.fail_at == Some("numstat") {
            return Err(failing("numstat"));
        }
        Ok(match range {
            "C0..C1" => "3\t2\ta.txt\n2\t0\tnew.txt\n",
            "C1..C2" => "0\t0\tdir/{b.txt => c.txt}\n",
            "C2..C3" => "-\t-\tbin.dat\n0\t2\tnew.txt\n",
            _ => "",
        }
        .to_string())
    }
}

impl Workdir for FakeWorkdir {
    fn status(&self) -> Result<WorkdirStatus, Error> {
        self.log.push("status".to_string());
        if self.fail_at == Some("status") {
            return Err(failing("status"));
        }
        Ok(workdir_status())
    }
}

impl ObjectStore for NoStore {
    fn read_commit(&self, _id: &str) -> Result<Commit, Error> {
        Err(failing("read_commit"))
    }

    fn read_tree(&self, _id: &str) -> Result<Tree, Error> {
        Err(failing("read_tree"))
    }

    fn read_blob(&self, _id: &str) -> Result<Blob, Error> {
        Err(failing("read_blob"))
    }
}

impl RefsStore for NoStore {
    fn all_refs(&self) -> Result<Vec<RefInfo>, Error> {
        Err(failing("all_refs"))
    }

    fn resolve_ref(&self, _name: &str) -> Result<String, Error> {
        Err(failing("resolve_ref"))
    }
}

impl IndexReader for NoStore {
    fn staged_entries(&self) -> Result<Vec<IndexEntry>, Error> {
        Err(failing("staged_entries"))
    }
}

fn backend(fail_at: Option<&'static str>) -> (FakeBackend, Log) {
    let log = Log::default();
    (
        FakeBackend { log: log.clone(), repo: "/repo".to_string(), fail_at, cancel_after_open: None },
        log,
    )
}

fn request(id: &str, payload: RequestPayload) -> Request {
    Request { version: ApiVersion::V0, id: id.to_string(), payload }
}

#[test]
fn handle_status_runs_the_steps_in_order() {
    let (backend, log) = backend(None);
    let response = RepoEngine::new().handle(&backend, request("r1", status_payload("/repo")));
    assert_eq!(response.id, "r1");
    match response.result.unwrap() {
        ResponsePayload::Status(view) => {
            assert_eq!(view.branch.as_deref(), Some("main"));
            assert_eq!(view.head.as_deref(), Some("0123abc"));
            assert_eq!(view.workdir.modified, vec!["m.txt"]);
            assert_eq!(view.index.staged, vec!["a.txt"]);
        }
        other => panic!("unexpected payload {:?}", other),
    }
    assert_eq!(log.lines(), vec!["open /repo", "snapshot", "status"]);
}

#[test]
fn handle_diff_summaries_of_the_fixture_history() {
    let engine = RepoEngine::new();
    let (backend, log) = backend(None);
    let diff = |from: &str, to: &str| {
        let response =
            engine.handle(&backend, request("d", diff_payload("/repo", Some(from), Some(to))));
        match response.result.unwrap() {
            ResponsePayload::DiffSummary(summary) => summary,
            other => panic!("unexpected payload {:?}", other),
        }
    };
    let first = diff("C0", "C1");
    assert_eq!(first.files_changed, 2);
    assert_eq!(
        first.changes.iter().filter(|c| matches!(c.change_type, ChangeType::Modified)).count(),
        1
    );
    assert_eq!(
        first.changes.iter().filter(|c| matches!(c.change_type, ChangeType::Added)).count(),
        1
    );
    let second = diff("C1", "C2");
    assert!(second
        .changes
        .iter()
        .any(|c| matches!(c.change_type, ChangeType::Renamed) && c.old_path.is_some()));
    let third = diff("C2", "C3");
    assert!(third.changes.iter().any(|c| matches!(c.change_type, ChangeType::Deleted)));
    assert!(third.changes.iter().any(|c| matches!(c.change_type, ChangeType::Added)));
    assert_eq!(
        log.lines()[..3],
        ["open /repo".to_string(), "name-status C0..C1".to_string(), "numstat C0..C1".to_string()]
    );
}

#[test]
fn handle_stops_at_the_first_failing_step() {
    for (fail_at, payload, expected) in [
        ("snapshot", status_payload("/repo"), vec!["open /repo", "snapshot"]),
        ("status", status_payload("/repo"), vec!["open /repo", "snapshot", "status"]),
        (
            "name-status",
            diff_payload("/repo", Some("C0"), Some("C1")),
            vec!["open /repo", "name-status C0..C1"],
        ),
        (
            "numstat",
            diff_payload("/repo", Some("C0"), Some("C1")),
            vec!["open /repo", "name-status C0..C1", "numstat C0..C1"],
        ),
    ] {
        let (backend, log) = backend(Some(fail_at));
        let response = RepoEngine::new().handle(&backend, request("f", payload));
        let e = response.result.unwrap_err();
        assert_eq!(e.code, ErrorCode::GitBackendError);
        assert_eq!(e.message, format!("{} failed", fail_at));
        assert_eq!(log.lines(), expected);
    }
}

#[test]
fn handle_reports_a_missing_repository() {
    let (backend, log) = backend(None);
    let response = RepoEngine::new().handle(&backend, request("m", status_payload("/nowhere")));
    let e = response.result.unwrap_err();
    assert_eq!(e.code, ErrorCode::RepoNotFound);
    assert_eq!(e.message, "Not a git repository: /nowhere");
    assert_eq!(log.lines(), vec!["open /nowhere"]);
}

#[test]
fn handle_refuses_unhandled_requests_before_the_backend() {
    let (backend, log) = backend(None);
    let engine = RepoEngine::new();
    for (payload, _, message) in unhandled("/repo") {
        let response = engine.handle(&backend, request("u", payload));
        assert_eq!(response.id, "u");
        let e = response.result.unwrap_err();
        assert_eq!(e.code, ErrorCode::GitBackendError);
        assert_eq!(e.message, message);
    }
    assert!(log.lines().is_empty());
}

#[test]
fn handle_on_the_stub_backend_fails_at_open() {
    let response = RepoEngine::new().handle(&StubGitBackend, request("s", status_payload("/repo")));
    let e = response.result.unwrap_err();
    assert_eq!(e.code, ErrorCode::GitBackendError);
    assert_eq!(e.message, "Git backend not implemented");
}

fn pending(id: &str, payload: RequestPayload, token: &CancellationToken) -> PendingQuery {
    PendingQuery { id: id.to_string(), payload, cancellation: token.clone() }
}

#[test]
fn pending_query_cancelled_before_dequeue_does_no_backend_work() {
    let (backend, log) = backend(None);
    let token = CancellationToken::new();
    token.cancel();
    let response =
        RepoEngine::new().handle_pending(&backend, pending("p", status_payload("/repo"), &token));
    assert_eq!(response.id, "p");
    assert_eq!(response.result.unwrap_err().code, ErrorCode::OperationCanceled);
    assert!(log.lines().is_empty());
}

#[test]
fn pending_query_cancelled_during_a_call_drops_the_result() {
    let (mut backend, log) = backend(None);
    let token = CancellationToken::new();
    backend.cancel_after_open = Some(token.clone());
    let response =
        RepoEngine::new().handle_pending(&backend, pending("p", status_payload("/repo"), &token));
    assert_eq!(response.result.unwrap_err().code, ErrorCode::OperationCanceled);
    assert_eq!(log.lines(), vec!["open /repo"]);
}

#[test]
fn pending_query_that_is_not_cancelled_completes() {
    let (backend, log) = backend(None);
    let token = CancellationToken::new();
    let query = pending("p", diff_payload("/repo", Some("C0"), Some("C1")), &token);
    let response = RepoEngine::new().handle_pending(&backend, query);
    assert_eq!(response.id, "p");
    assert!(matches!(response.result, Ok(ResponsePayload::DiffSummary(_))));
    assert_eq!(log.lines().len(), 3);
}
