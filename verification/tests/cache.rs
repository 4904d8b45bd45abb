use repo_lens::api::event::{
    Event, HeadChangedEvent, IndexChangedEvent, OperationProgressEvent, RefsChangedEvent,
    RepoClosedEvent, RepoOpenedEvent, WorkdirChangedEvent,
};
use repo_lens::git::Tree;
use repo_lens::index::{
    BlameCache, BlameLine, CachePolicy, CommitGraphCache, CommitGraphWindow, DiffCache, DiffChunk,
    DiffSummary, EvictionStrategy, IndexManager, Range, TreeCache,
};

fn policy(total: u64, per_repo: u64, eviction: EvictionStrategy) -> CachePolicy {
    CachePolicy { max_total_bytes: total, max_per_repo_bytes: per_repo, eviction }
}

fn tree(id: &str) -> Tree {
    Tree { id: id.to_string(), entries: Vec::new() }
}

fn window() -> CommitGraphWindow {
    CommitGraphWindow { commits: Vec::new(), lanes: Vec::new() }
}

fn summary(files: usize) -> DiffSummary {
    DiffSummary { files_changed: files, additions: 0, deletions: 0 }
}

fn chunk(path: &str) -> DiffChunk {
    DiffChunk {
        file_path: path.to_string(),
        old_range: Range { start: 1, count: 1 },
        new_range: Range { start: 1, count: 2 },
        lines: Vec::new(),
    }
}

fn blame(n: usize) -> BlameLine {
    BlameLine {
        line_number: n,
        commit_id: "c".to_string(),
        author_name: "n".to_string(),
        author_email: "e".to_string(),
        content: "x".to_string(),
    }
}

fn has_tree(manager: &IndexManager, repo: &str, id: &str) -> bool {
    manager.tree_cache.get_tree(repo, id).is_some()
}

#[test]
fn default_policy_is_256_mib_lru() {
    let p = CachePolicy::default();
    assert_eq!(p.max_total_bytes, 256 * 1024 * 1024);
    assert_eq!(p.max_per_repo_bytes, 256 * 1024 * 1024);
    assert_eq!(p.eviction, EvictionStrategy::Lru);
    let m = IndexManager::new();
    assert_eq!(m.policy.max_total_bytes, 256 * 1024 * 1024);
    assert_eq!(m.bytes_in_use(), 0);
    assert_eq!(m.clock, 0);
}

#[test]
fn miss_is_not_an_error() {
    let mut m = IndexManager::new();
    assert!(m.get_window("/r", "HEAD", 10).is_none());
    assert!(m.get_tree("/r", "t").is_none());
    assert!(m.get_diff_summary("/r", "a", "b").is_none());
    assert!(m.get_diff_chunks("/r", "a", "b", "p").is_none());
    assert!(m.get_blame_lines("/r", "c", "p", 1, 5).is_none());
}

#[test]
fn put_then_get_returns_the_value() {
    let mut m = IndexManager::new();
    m.put_window("/r", "HEAD", 10, window(), 100);
    m.put_tree("/r", "t1", tree("t1"), 10);
    m.put_diff_summary("/r", "a", "b", summary(3), 5);
    m.put_diff_chunks("/r", "a", "b", "p", vec![chunk("p"), chunk("p")], 7);
    m.put_blame_lines("/r", "c", "p", 1, 5, vec![blame(1), blame(2), blame(3)], 9);
    assert!(m.get_window("/r", "HEAD", 10).is_some());
    assert_eq!(m.get_tree("/r", "t1").unwrap().id, "t1");
    assert_eq!(m.get_diff_summary("/r", "a", "b").unwrap().files_changed, 3);
    assert_eq!(m.get_diff_chunks("/r", "a", "b", "p").unwrap().len(), 2);
    assert_eq!(m.get_blame_lines("/r", "c", "p", 1, 5).unwrap().len(), 3);
    assert_eq!(m.bytes_in_use(), 131);
    assert_eq!(m.bytes_in_use_for("/r"), 131);
    assert_eq!(m.bytes_in_use_for("/other"), 0);
}

#[test]
fn keys_are_told_apart_by_every_part() {
    let mut m = IndexManager::new();
    m.put_window("/r", "HEAD", 10, window(), 1);
    assert!(m.get_window("/r", "HEAD", 11).is_none());
    assert!(m.get_window("/r", "HEAD~1", 10).is_none());
    assert!(m.get_window("/other", "HEAD", 10).is_none());
    m.put_blame_lines("/r", "c", "p", 1, 5, vec![blame(1)], 1);
    assert!(m.get_blame_lines("/r", "c", "p", 1, 6).is_none());
    assert!(m.get_blame_lines("/r", "c", "p", 2, 5).is_none());
    assert!(m.get_blame_lines("/r", "c", "q", 1, 5).is_none());
    m.put_diff_chunks("/r", "a", "b", "p", vec![chunk("p")], 1);
    assert!(m.get_diff_chunks("/r", "a", "b", "q").is_none());
    assert!(m.get_diff_chunks("/r", "b", "a", "p").is_none());
    assert!(m.get_diff_summary("/r", "a", "b").is_none());
}

#[test]
fn put_replaces_the_entry_with_the_same_key() {
    let mut m = IndexManager::new();
    m.put_diff_summary("/r", "a", "b", summary(1), 10);
    m.put_diff_summary("/r", "a", "b", summary(2), 30);
    assert_eq!(m.get_diff_summary("/r", "a", "b").unwrap().files_changed, 2);
    assert_eq!(m.bytes_in_use(), 30);
}

#[test]
fn per_repo_budget_holds_after_every_put() {
    let mut m = IndexManager::with_policy(policy(1000, 100, EvictionStrategy::Lru));
    let mut declared: u64 = 0;
    for i in 0..50u64 {
        let size = 7 + (i % 5) * 9;
        declared += size;
        m.put_tree("/r", &format!("t{}", i), tree("t"), size);
        assert!(m.bytes_in_use_for("/r") <= 100, "after put {}", i);
        assert!(m.bytes_in_use() <= 1000);
        assert!(has_tree(&m, "/r", &format!("t{}", i)));
    }
    assert!(declared > 100);
}

#[test]
fn total_budget_holds_across_repositories_and_caches() {
    let mut m = IndexManager::with_policy(policy(100, 60, EvictionStrategy::Lru));
    m.put_tree("/a", "t", tree("t"), 50);
    m.put_window("/b", "HEAD", 5, window(), 40);
    assert_eq!(m.bytes_in_use(), 90);
    m.put_diff_summary("/c", "x", "y", summary(1), 30);
    assert!(m.bytes_in_use() <= 100);
    assert!(!has_tree(&m, "/a", "t"));
    assert!(m.commit_graph.get_window("/b", "HEAD", 5).is_some());
    assert!(m.diff_cache.get_diff_summary("/c", "x", "y").is_some());
    assert_eq!(m.bytes_in_use(), 70);
}

#[test]
fn lru_evicts_the_oldest_access_first() {
    let mut m = IndexManager::with_policy(policy(1000, 30, EvictionStrategy::Lru));
    m.put_tree("/r", "a", tree("a"), 10);
    m.put_tree("/r", "b", tree("b"), 10);
    m.put_tree("/r", "c", tree("c"), 10);
    assert!(m.get_tree("/r", "a").is_some());
    m.put_tree("/r", "d", tree("d"), 10);
    assert!(has_tree(&m, "/r", "a"));
    assert!(!has_tree(&m, "/r", "b"));
    assert!(has_tree(&m, "/r", "c"));
    assert!(has_tree(&m, "/r", "d"));
    m.put_tree("/r", "e", tree("e"), 20);
    assert!(has_tree(&m, "/r", "d"));
    assert!(has_tree(&m, "/r", "e"));
    assert!(!has_tree(&m, "/r", "a"));
    assert!(!has_tree(&m, "/r", "c"));
}

#[test]
fn lru_order_spans_the_caches() {
    let mut m = IndexManager::with_policy(policy(30, 30, EvictionStrategy::Lru));
    m.put_blame_lines("/r", "c", "p", 1, 2, vec![blame(1)], 10);
    m.put_tree("/r", "t", tree("t"), 10);
    m.put_window("/r", "HEAD", 3, window(), 10);
    m.put_diff_summary("/r", "a", "b", summary(1), 10);
    assert!(m.blame_cache.get_blame_lines("/r", "c", "p", 1, 2).is_none());
    assert!(has_tree(&m, "/r", "t"));
    m.put_diff_chunks("/r", "a", "b", "p", vec![chunk("p")], 10);
    assert!(!has_tree(&m, "/r", "t"));
    assert!(m.commit_graph.get_window("/r", "HEAD", 3).is_some());
}

#[test]
fn lfu_evicts_the_least_used_then_the_oldest_insertion() {
    let mut m = IndexManager::with_policy(policy(1000, 30, EvictionStrategy::Lfu));
    m.put_tree("/r", "a", tree("a"), 10);
    m.put_tree("/r", "b", tree("b"), 10);
    m.put_tree("/r", "c", tree("c"), 10);
    assert!(m.get_tree("/r", "a").is_some());
    assert!(m.get_tree("/r", "a").is_some());
    assert!(m.get_tree("/r", "c").is_some());
    m.put_tree("/r", "d", tree("d"), 10);
    assert!(!has_tree(&m, "/r", "b"));
    assert!(m.get_tree("/r", "d").is_some());
    m.put_tree("/r", "e", tree("e"), 10);
    // c and d have one access each; c was inserted first.
    assert!(!has_tree(&m, "/r", "c"));
    assert!(has_tree(&m, "/r", "a"));
    assert!(has_tree(&m, "/r", "d"));
    assert!(has_tree(&m, "/r", "e"));
}

#[test]
fn repo_bound_evicts_only_within_the_repository() {
    let mut m = IndexManager::with_policy(policy(1000, 20, EvictionStrategy::Lru));
    m.put_tree("/old", "t", tree("t"), 20);
    m.put_tree("/r", "a", tree("a"), 10);
    m.put_tree("/r", "b", tree("b"), 10);
    m.put_tree("/r", "c", tree("c"), 10);
    assert!(has_tree(&m, "/old", "t"));
    assert!(!has_tree(&m, "/r", "a"));
    assert_eq!(m.bytes_in_use_for("/r"), 20);
    assert_eq!(m.bytes_in_use_for("/old"), 20);
}

#[test]
fn value_larger_than_a_bound_is_not_taken_in() {
    let mut m = IndexManager::with_policy(policy(100, 50, EvictionStrategy::Lru));
    m.put_tree("/r", "a", tree("a"), 40);
    m.put_tree("/r", "big", tree("big"), 51);
    assert!(!has_tree(&m, "/r", "big"));
    assert!(has_tree(&m, "/r", "a"));
    m.put_tree("/r", "a", tree("a2"), 51);
    assert!(!has_tree(&m, "/r", "a"));
    assert_eq!(m.bytes_in_use(), 0);
    let mut m = IndexManager::with_policy(policy(50, 100, EvictionStrategy::Lru));
    m.put_tree("/r", "big", tree("big"), 51);
    assert!(!has_tree(&m, "/r", "big"));
    m.put_tree("/r", "fits", tree("fits"), 50);
    assert!(has_tree(&m, "/r", "fits"));
}

#[test]
fn zero_budget_keeps_only_empty_values() {
    let mut m = IndexManager::with_policy(policy(0, 0, EvictionStrategy::Lru));
    m.put_tree("/r", "a", tree("a"), 1);
    assert!(!has_tree(&m, "/r", "a"));
    m.put_tree("/r", "z", tree("z"), 0);
    assert!(has_tree(&m, "/r", "z"));
}

#[test]
fn invalidation_purges_position_addressed_entries_of_the_repository() {
    let mut m = IndexManager::new();
    for repo in ["/r", "/other"] {
        m.put_window(repo, "HEAD", 10, window(), 1);
        m.put_tree(repo, "t", tree("t"), 2);
        m.put_diff_summary(repo, "HEAD~1", "HEAD", summary(1), 3);
        m.put_diff_chunks(repo, "HEAD~1", "HEAD", "p", vec![chunk("p")], 4);
        m.put_blame_lines(repo, "HEAD", "p", 1, 9, vec![blame(1)], 5);
    }
    let clock = m.clock;
    m.invalidate("/r");
    assert_eq!(m.clock, clock);
    assert!(m.commit_graph.get_window("/r", "HEAD", 10).is_none());
    assert!(m.diff_cache.get_diff_summary("/r", "HEAD~1", "HEAD").is_none());
    assert!(m.diff_cache.get_diff_chunks("/r", "HEAD~1", "HEAD", "p").is_none());
    assert!(m.blame_cache.get_blame_lines("/r", "HEAD", "p", 1, 9).is_none());
    assert!(has_tree(&m, "/r", "t"));
    assert_eq!(m.bytes_in_use_for("/r"), 2);
    assert_eq!(m.bytes_in_use_for("/other"), 15);
    assert!(m.commit_graph.get_window("/other", "HEAD", 10).is_some());
    assert!(m.blame_cache.get_blame_lines("/other", "HEAD", "p", 1, 9).is_some());
}

fn filled() -> IndexManager {
    let mut m = IndexManager::new();
    m.put_window("/r", "HEAD", 10, window(), 1);
    m.put_tree("/r", "t", tree("t"), 2);
    m
}

#[test]
fn change_events_invalidate_and_other_events_do_not() {
    let stale = [
        Event::HeadChanged(HeadChangedEvent {
            repo_path: "/r".to_string(),
            new_head: Some("b".to_string()),
            old_head: Some("a".to_string()),
        }),
        Event::IndexChanged(IndexChangedEvent {
            repo_path: "/r".to_string(),
            changed_files: vec!["f".to_string()],
        }),
        Event::WorkdirChanged(WorkdirChangedEvent {
            repo_path: "/r".to_string(),
            changed_files: Vec::new(),
        }),
        Event::RefsChanged(RefsChangedEvent {
            repo_path: "/r".to_string(),
            changed_refs: vec!["refs/heads/main".to_string()],
        }),
    ];
    for event in stale.iter() {
        let mut m = filled();
        m.apply_event(event);
        assert!(m.commit_graph.get_window("/r", "HEAD", 10).is_none(), "{:?}", event);
        assert!(has_tree(&m, "/r", "t"));
    }
    let quiet = [
        Event::RepoOpened(RepoOpenedEvent { repo_path: "/r".to_string() }),
        Event::RepoClosed(RepoClosedEvent { repo_path: "/r".to_string() }),
        Event::OperationProgress(OperationProgressEvent {
            repo_path: "/r".to_string(),
            operation_id: "op".to_string(),
            progress: 50,
            message: None,
        }),
    ];
    for event in quiet.iter() {
        let mut m = filled();
        m.apply_event(event);
        assert!(m.commit_graph.get_window("/r", "HEAD", 10).is_some(), "{:?}", event);
        assert_eq!(m.bytes_in_use(), 3);
    }
    let mut m = filled();
    m.apply_event(&Event::HeadChanged(HeadChangedEvent {
        repo_path: "/elsewhere".to_string(),
        new_head: None,
        old_head: None,
    }));
    assert!(m.commit_graph.get_window("/r", "HEAD", 10).is_some());
}

#[test]
fn clock_moves_on_with_every_get_and_put() {
    let mut m = IndexManager::new();
    m.put_tree("/r", "a", tree("a"), 1);
    assert_eq!(m.clock, 1);
    assert!(m.get_tree("/r", "a").is_some());
    assert_eq!(m.clock, 2);
    assert!(m.get_tree("/r", "missing").is_none());
    assert_eq!(m.clock, 3);
    m.clock = u64::MAX;
    m.put_tree("/r", "b", tree("b"), 1);
    assert_eq!(m.clock, u64::MAX);
    assert!(has_tree(&m, "/r", "b"));
}

#[test]
fn standalone_caches_store_without_evicting() {
    let mut windows = CommitGraphCache::new();
    windows.put_window("/r", "HEAD", 10, window(), u64::MAX, 1);
    windows.put_window("/r", "HEAD", 20, window(), u64::MAX, 2);
    assert!(windows.get_window("/r", "HEAD", 10).is_some());
    assert!(windows.get_window("/r", "HEAD", 20).is_some());
    assert!(windows.get_window("/r", "HEAD", 30).is_none());

    let mut trees = TreeCache::new();
    trees.put_tree("/r", "t", tree("first"), 1, 1);
    trees.put_tree("/r", "t", tree("second"), 1, 2);
    assert_eq!(trees.get_tree("/r", "t").unwrap().id, "second");
    assert!(trees.get_tree("/q", "t").is_none());

    let mut diffs = DiffCache::new();
    diffs.put_diff_summary("/r", "a", "b", summary(4), 1, 1);
    diffs.put_diff_chunks("/r", "a", "b", "p", vec![chunk("p")], 1, 1);
    assert_eq!(diffs.get_diff_summary("/r", "a", "b").unwrap().files_changed, 4);
    assert_eq!(diffs.get_diff_chunks("/r", "a", "b", "p").unwrap()[0].file_path, "p");
    assert!(diffs.get_diff_chunks("/r", "a", "b", "q").is_none());

    let mut blames = BlameCache::new();
    blames.put_blame_lines("/r", "c", "p", 1, 2, vec![blame(1), blame(2)], 1, 1);
    assert_eq!(blames.get_blame_lines("/r", "c", "p", 1, 2).unwrap()[1].line_number, 2);
    assert!(blames.get_blame_lines("/r", "c", "p", 1, 3).is_none());
}

#[test]
fn sizes_add_up_beyond_64_bits() {
    let mut trees = TreeCache::new();
    trees.put_tree("/r", "a", tree("a"), u64::MAX, 1);
    trees.put_tree("/r", "b", tree("b"), u64::MAX, 2);
    let mut m = IndexManager::with_policy(policy(u64::MAX, u64::MAX, EvictionStrategy::Lru));
    m.tree_cache = trees;
    assert_eq!(m.bytes_in_use(), 2 * (u64::MAX as u128));
    m.put_tree("/r", "c", tree("c"), 1);
    assert!(m.bytes_in_use() <= u64::MAX as u128);
    assert!(has_tree(&m, "/r", "c"));
}
