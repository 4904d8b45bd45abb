use repo_lens::api::error::ErrorCode;
use repo_lens::git::backend::{
    backend_error, record_ranges, spawn_error, trimmed, CliBackend, CliRepoHandle, ProcessOutput,
};
use repo_lens::git::{
    GitBackend, IndexReader, ObjectStore, RefsStore, RepoHandle, StubGitBackend, StubIndexReader,
    StubObjectStore, StubRefsStore, StubRepoHandle, StubWorkdir, Workdir,
};

fn ok(stdout: &[u8]) -> ProcessOutput {
    ProcessOutput { success: true, stdout: stdout.to_vec(), stderr: Vec::new() }
}

fn failed(stderr: &[u8]) -> ProcessOutput {
    ProcessOutput { success: false, stdout: b"ignored".to_vec(), stderr: stderr.to_vec() }
}

#[test]
fn probe_arguments_and_answer() {
    let backend = CliBackend::new();
    assert_eq!(backend.is_repo_args("/some repo"), vec!["-C", "/some repo", "rev-parse", "--git-dir"]);
    assert_eq!(backend.is_repo(&ok(b".git\n")).unwrap(), true);
    assert_eq!(backend.is_repo(&failed(b"fatal: not a git repository")).unwrap(), false);
    let _ = CliBackend::default();
}

#[test]
fn open_repo_needs_a_valid_repository() {
    let backend = CliBackend::new();
    let handle = backend.open_repo("/repo", true).unwrap();
    assert_eq!(handle.path, "/repo");
    assert_eq!(handle.workdir().path, "/repo");
    let e = backend.open_repo("/not/a/repo", false).unwrap_err();
    assert_eq!(e.code, ErrorCode::RepoNotFound);
    assert_eq!(e.message, "Not a git repository: /not/a/repo");
    assert!(e.remediation.is_none());
}

#[test]
fn handle_arguments() {
    let handle = CliRepoHandle::new("/repo");
    assert_eq!(handle.head_args(), vec!["-C", "/repo", "rev-parse", "HEAD"]);
    assert_eq!(handle.branch_args(), vec!["-C", "/repo", "rev-parse", "--abbrev-ref", "HEAD"]);
    assert_eq!(
        handle.diff_name_status_args("C0..C1"),
        vec!["-C", "/repo", "diff", "--name-status", "-M", "C0..C1"]
    );
    assert_eq!(handle.diff_numstat_args("HEAD"), vec!["-C", "/repo", "diff", "--numstat", "HEAD"]);
    assert_eq!(
        handle.workdir().status_args(),
        vec!["-C", "/repo", "status", "--porcelain=v1", "-z"]
    );
}

#[test]
fn snapshot_reads_head_and_branch() {
    let handle = CliRepoHandle::new("/repo");
    let snap = handle.snapshot(&ok(b"0123abcd\n"), &ok(b"  main \n")).unwrap();
    assert_eq!(snap.path, "/repo");
    assert_eq!(snap.head.as_deref(), Some("0123abcd"));
    assert_eq!(snap.branch.as_deref(), Some("main"));
    assert!(snap.refs.is_empty());
}

#[test]
fn snapshot_of_a_detached_head_has_no_branch() {
    let handle = CliRepoHandle::new("/repo");
    let snap = handle.snapshot(&ok(b"0123abcd\n"), &ok(b"HEAD\n")).unwrap();
    assert_eq!(snap.head.as_deref(), Some("0123abcd"));
    assert!(snap.branch.is_none());
}

#[test]
fn snapshot_of_an_unborn_repository_is_empty() {
    let handle = CliRepoHandle::new("/repo");
    let snap = handle.snapshot(&failed(b"fatal: bad revision"), &failed(b"fatal")).unwrap();
    assert!(snap.head.is_none());
    assert!(snap.branch.is_none());
    let snap = handle.snapshot(&failed(b"fatal"), &ok(b"main\n")).unwrap();
    assert!(snap.head.is_none());
    assert_eq!(snap.branch.as_deref(), Some("main"));
}

#[test]
fn diff_listing_is_passed_through_or_fails_with_stderr() {
    let handle = CliRepoHandle::new("/repo");
    assert_eq!(handle.diff_name_status(&ok(b"M\ta.txt\n")).unwrap(), "M\ta.txt\n");
    assert_eq!(handle.diff_numstat(&ok(b"1\t2\ta.txt\n")).unwrap(), "1\t2\ta.txt\n");
    let e = handle.diff_name_status(&failed(b"fatal: bad revision 'C9'\n")).unwrap_err();
    assert_eq!(e.code, ErrorCode::GitBackendError);
    assert_eq!(e.message, "git diff failed: fatal: bad revision 'C9'\n");
    let e = handle.diff_numstat(&failed(b"oops")).unwrap_err();
    assert_eq!(e.message, "git diff failed: oops");
    assert_eq!(handle.diff_numstat(&ok(b"caf\xc3\xa9\xff")).unwrap(), "caf\u{e9}\u{fffd}");
}

#[test]
fn status_is_parsed_or_fails_with_stderr() {
    let handle = CliRepoHandle::new("/repo");
    let status = handle.workdir().status(&ok(b"?? new.txt\0 M a.txt\0")).unwrap();
    assert_eq!(status.untracked, vec!["new.txt"]);
    assert_eq!(status.modified, vec!["a.txt"]);
    let e = handle.workdir().status(&failed(b"fatal: not a work tree")).unwrap_err();
    assert_eq!(e.code, ErrorCode::GitBackendError);
    assert_eq!(e.message, "git status failed: fatal: not a work tree");
}

#[test]
fn spawn_failures_are_backend_errors() {
    let e = spawn_error("No such file or directory (os error 2)");
    assert_eq!(e.code, ErrorCode::GitBackendError);
    assert_eq!(e.message, "Failed to execute git: No such file or directory (os error 2)");
    let e = backend_error("prefix: ", "detail");
    assert_eq!(e.message, "prefix: detail");
    assert!(e.details.is_none());
}

#[test]
fn trimmed_drops_surrounding_white_space() {
    assert_eq!(trimmed("  main \n"), "main");
    assert_eq!(trimmed("\n"), "");
    assert_eq!(trimmed("a b"), "a b");
}

#[test]
fn records_are_the_non_empty_fields() {
    let stream = b"\0ab\0\0c\0d";
    let ranges = record_ranges(stream);
    let records: Vec<&[u8]> = ranges.iter().map(|&(a, b)| &stream[a..b]).collect();
    let expected: Vec<&[u8]> = stream.split(|&b| b == 0).filter(|e| !e.is_empty()).collect();
    assert_eq!(records, expected);
    assert!(record_ranges(b"").is_empty());
    assert!(record_ranges(b"\0\0").is_empty());
}

#[test]
fn cli_sub_interfaces_are_not_finished() {
    let handle = CliRepoHandle::new("/repo");
    let objects = handle.object_store();
    for e in [
        objects.read_commit("c").unwrap_err(),
        objects.read_tree("t").unwrap_err(),
        objects.read_blob("b").unwrap_err(),
    ] {
        assert_eq!(e.code, ErrorCode::GitBackendError);
        assert_eq!(e.message, "CLI object store not fully implemented");
    }
    let refs = handle.refs_store();
    assert_eq!(refs.all_refs().unwrap_err().message, "CLI refs store not fully implemented");
    assert_eq!(refs.resolve_ref("HEAD").unwrap_err().message, "CLI refs store not fully implemented");
    let e = handle.index_reader().staged_entries().unwrap_err();
    assert_eq!(e.code, ErrorCode::GitBackendError);
    assert_eq!(e.message, "CLI index reader not fully implemented");
}

#[test]
fn stub_backend_answers_not_implemented_everywhere() {
    let message = "Git backend not implemented";
    let backend = StubGitBackend;
    assert_eq!(backend.is_repo("/r").unwrap_err().message, message);
    let e = backend.open_repo("/r").unwrap_err();
    assert_eq!(e.code, ErrorCode::GitBackendError);
    assert_eq!(e.message, message);
    let handle = StubRepoHandle {
        objects: StubObjectStore,
        refs: StubRefsStore,
        work: StubWorkdir,
        index: StubIndexReader,
    };
    assert_eq!(handle.snapshot().unwrap_err().message, message);
    assert_eq!(handle.diff_name_status("r").unwrap_err().message, message);
    assert_eq!(handle.diff_numstat("r").unwrap_err().message, message);
    assert_eq!(handle.object_store().read_commit("c").unwrap_err().message, message);
    assert_eq!(handle.object_store().read_tree("t").unwrap_err().message, message);
    assert_eq!(handle.object_store().read_blob("b").unwrap_err().message, message);
    assert_eq!(handle.refs_store().all_refs().unwrap_err().message, message);
    assert_eq!(handle.refs_store().resolve_ref("HEAD").unwrap_err().message, message);
    assert_eq!(handle.workdir().status().unwrap_err().message, message);
    assert_eq!(handle.index_reader().staged_entries().unwrap_err().message, message);
}
