//! Bounded caches for expensive repository queries: commit-graph windows,
//! trees, diffs and blame, under one byte budget and one eviction order.

pub mod store;

pub use store::EvictionStrategy;

use crate::api::event::Event;
use crate::git::{Commit, Tree};
use store::{
    accessed, before, distinct, dropped, goes_before, holds, lemma_dropped_gone, lemma_first_in,
    lemma_purged, lemma_push_bytes, lemma_remove_bytes, lemma_remove_distinct,
    lemma_repo_bytes_bounds, lemma_victim_in, lookup, purged, repo_bytes, sum_bytes, victim_in,
    Entry, EntryKey, KeyModel, Slot, Store,
};
use vstd::prelude::*;
use vstd::string::StringExecFns;

verus! {

/// Cache policy configuration.
#[derive(Debug, Clone, Copy)]
pub struct CachePolicy {
    /// Maximum bytes to use for all caches combined
    pub max_total_bytes: u64,
    /// Maximum bytes per repository
    pub max_per_repo_bytes: u64,
    /// Eviction strategy
    pub eviction: EvictionStrategy,
}

impl CachePolicy {
    /// Whether a value of `bytes` can be resident at all: it is no larger
    /// than either bound.
    pub open spec fn admits(self, bytes: u64) -> bool {
        bytes <= self.max_per_repo_bytes && bytes <= self.max_total_bytes
    }
}

impl Default for CachePolicy {
    fn default() -> (p: CachePolicy)
        ensures
            p.max_total_bytes == 268435456,
            p.max_per_repo_bytes == 268435456,
            p.eviction == EvictionStrategy::Lru,
    {
        CachePolicy {
            max_total_bytes: 268435456,
            max_per_repo_bytes: 268435456,
            eviction: EvictionStrategy::Lru,
        }
    }
}

/// Commit graph window data.
#[derive(Debug, Clone)]
pub struct CommitGraphWindow {
    /// Commits in this window
    pub commits: Vec<CommitGraphNode>,
    /// Graph lanes for visualization
    pub lanes: Vec<GraphLane>,
}

/// Node in commit graph.
#[derive(Debug, Clone)]
pub struct CommitGraphNode {
    /// Commit data
    pub commit: Commit,
    /// Lane index for this commit
    pub lane_index: usize,
}

/// Graph lane for visualization.
#[derive(Debug, Clone)]
pub struct GraphLane {
    /// Lane index
    pub index: usize,
    /// Lane type
    pub lane_type: LaneType,
}

/// Type of graph lane.
#[derive(Debug, Clone, Copy, PartialEq, Eq, Structural)]
pub enum LaneType {
    /// Commit lane
    Commit,
    /// Merge lane
    Merge,
    /// Branch lane
    Branch,
    /// Empty lane
    Empty,
}

/// Diff summary data.
#[derive(Debug, Clone)]
pub struct DiffSummary {
    /// Files changed
    pub files_changed: usize,
    /// Total additions
    pub additions: usize,
    /// Total deletions
    pub deletions: usize,
}

/// Diff chunk data.
#[derive(Debug, Clone)]
pub struct DiffChunk {
    /// File path
    pub file_path: String,
    /// Old file range
    pub old_range: Range,
    /// New file range
    pub new_range: Range,
    /// Lines in the chunk
    pub lines: Vec<DiffLine>,
}

/// Range in a file.
#[derive(Debug, Clone)]
pub struct Range {
    /// Start line
    pub start: usize,
    /// Count of lines
    pub count: usize,
}

/// Line in a diff.
#[derive(Debug, Clone)]
pub struct DiffLine {
    /// Line type
    pub line_type: DiffLineType,
    /// Old line number
    pub old_line: Option<usize>,
    /// New line number
    pub new_line: Option<usize>,
    /// Line content
    pub content: String,
}

/// Type of diff line.
#[derive(Debug, Clone, Copy, PartialEq, Eq, Structural)]
pub enum DiffLineType {
    /// Context line
    Context,
    /// Added line
    Addition,
    /// Deleted line
    Deletion,
}

/// Blame line data.
#[derive(Debug, Clone)]
pub struct BlameLine {
    /// Line number
    pub line_number: usize,
    /// Commit ID
    pub commit_id: String,
    /// Author name
    pub author_name: String,
    /// Author email
    pub author_email: String,
    /// Line content
    pub content: String,
}

/// The key with the given parts.
pub open spec fn key_of(
    first: Seq<char>,
    second: Seq<char>,
    third: Seq<char>,
    low: u64,
    high: u64,
) -> KeyModel {
    KeyModel { first, second, third, low, high }
}

/// Key of a commit-graph window: where it starts and how long it is.
pub open spec fn window_key(start_commit: Seq<char>, window_size: usize) -> KeyModel {
    key_of(start_commit, Seq::empty(), Seq::empty(), window_size as u64, 0)
}

/// Key of a tree: its object id.
pub open spec fn tree_key(tree_id: Seq<char>) -> KeyModel {
    key_of(tree_id, Seq::empty(), Seq::empty(), 0, 0)
}

/// Key of a diff summary: the pair of commits.
pub open spec fn diff_key(from_commit: Seq<char>, to_commit: Seq<char>) -> KeyModel {
    key_of(from_commit, to_commit, Seq::empty(), 0, 0)
}

/// Key of the diff chunks of one file: the pair of commits and the path.
pub open spec fn chunks_key(
    from_commit: Seq<char>,
    to_commit: Seq<char>,
    file_path: Seq<char>,
) -> KeyModel {
    key_of(from_commit, to_commit, file_path, 0, 0)
}

/// Key of a run of blame lines: commit, path and the range of lines.
pub open spec fn blame_key(
    commit_id: Seq<char>,
    file_path: Seq<char>,
    start_line: usize,
    end_line: usize,
) -> KeyModel {
    key_of(commit_id, file_path, Seq::empty(), start_line as u64, end_line as u64)
}

/// The entry that a put makes: never accessed, inserted at `now`.
pub open spec fn fresh<V>(repo: Seq<char>, key: KeyModel, bytes: u64, now: u64, value: V) -> Entry<
    V,
> {
    Entry { repo, key, bytes, last_access: now, hits: 0, inserted: now, value }
}

/// The slots after the entry of `e` is put: a resident entry with the same
/// identity gives way, then `e` comes last.
pub open spec fn replaced<V>(slots: Seq<Entry<V>>, e: Entry<V>) -> Seq<Entry<V>> {
    dropped(slots, e.repo, e.key).push(e)
}

fn make_key(first: &str, second: Option<&str>, third: Option<&str>, low: u64, high: u64) -> (k:
    EntryKey)
    ensures
        k@ == key_of(
            first@,
            match second {
                Some(s) => s@,
                None => Seq::empty(),
            },
            match third {
                Some(s) => s@,
                None => Seq::empty(),
            },
            low,
            high,
        ),
{
    let second = match second {
        Some(s) => String::from_str(s),
        None => String::new(),
    };
    let third = match third {
        Some(s) => String::from_str(s),
        None => String::new(),
    };
    EntryKey { first: String::from_str(first), second, third, low, high }
}

fn make_slot<V>(repo: &String, key: EntryKey, bytes: u64, now: u64, value: V) -> (s: Slot<V>)
    ensures
        s@ == fresh(repo@, key@, bytes, now, value),
{
    Slot { repo: repo.clone(), key, bytes, last_access: now, hits: 0, inserted: now, value }
}

/// Windowed commit graph cache for fast graph rendering.
#[derive(Debug)]
pub struct CommitGraphCache {
    windows: Store<CommitGraphWindow>,
}

impl View for CommitGraphCache {
    type V = Seq<Entry<CommitGraphWindow>>;

    closed spec fn view(&self) -> Seq<Entry<CommitGraphWindow>> {
        self.windows@
    }
}

impl CommitGraphCache {
    /// No entry occurs twice.
    pub open spec fn wf(&self) -> bool {
        distinct(self@)
    }

    /// The empty cache.
    pub fn new() -> (c: CommitGraphCache)
        ensures
            c@ == Seq::<Entry<CommitGraphWindow>>::empty(),
            c.wf(),
    {
        CommitGraphCache { windows: Store::new() }
    }

    /// The cached commit graph window, if resident. A miss is no error. Looking
    /// here does not count as an access.
    pub fn get_window(
        &self,
        repo_path: &str,
        start_commit: &str,
        window_size: usize,
    ) -> (r: Option<&CommitGraphWindow>)
        ensures
            match r {
                Some(v) => lookup(
                    self@,
                    repo_path@,
                    window_key(start_commit@, window_size),
                ) == Some(*v),
                None => lookup(
                    self@,
                    repo_path@,
                    window_key(start_commit@, window_size),
                ) is None,
            },
    {
        let repo = String::from_str(repo_path);
        let key = make_key(start_commit, None, None, window_size as u64, 0);
        self.windows.peek(&repo, &key)
    }

    /// Store the commit graph window with its declared size, in place of a resident
    /// entry with the same key. Nothing is evicted here: the budget is the
    /// manager's to keep.
    pub fn put_window(
        &mut self,
        repo_path: &str,
        start_commit: &str,
        window_size: usize,
        window: CommitGraphWindow,
        size_bytes: u64,
        now: u64,
    )
        ensures
            final(self)@ == replaced(
                old(self)@,
                fresh(repo_path@, window_key(start_commit@, window_size), size_bytes, now, window),
            ),
            old(self).wf() ==> final(self).wf(),
    {
        let repo = String::from_str(repo_path);
        let key = make_key(start_commit, None, None, window_size as u64, 0);
        self.windows.discard(&repo, &key);
        self.windows.insert(make_slot(&repo, key, size_bytes, now, window));
    }
}

/// Tree snapshot cache for fast directory browsing.
#[derive(Debug)]
pub struct TreeCache {
    trees: Store<Tree>,
}

impl View for TreeCache {
    type V = Seq<Entry<Tree>>;

    closed spec fn view(&self) -> Seq<Entry<Tree>> {
        self.trees@
    }
}

impl TreeCache {
    /// No entry occurs twice.
    pub open spec fn wf(&self) -> bool {
        distinct(self@)
    }

    /// The empty cache.
    pub fn new() -> (c: TreeCache)
        ensures
            c@ == Seq::<Entry<Tree>>::empty(),
            c.wf(),
    {
        TreeCache { trees: Store::new() }
    }

    /// The cached tree, if resident. A miss is no error. Looking
    /// here does not count as an access.
    pub fn get_tree(
        &self,
        repo_path: &str,
        tree_id: &str,
    ) -> (r: Option<&Tree>)
        ensures
            match r {
                Some(v) => lookup(
                    self@,
                    repo_path@,
                    tree_key(tree_id@),
                ) == Some(*v),
                None => lookup(
                    self@,
                    repo_path@,
                    tree_key(tree_id@),
                ) is None,
            },
    {
        let repo = String::from_str(repo_path);
        let key = make_key(tree_id, None, None, 0, 0);
        self.trees.peek(&repo, &key)
    }

    /// Store the tree with its declared size, in place of a resident
    /// entry with the same key. Nothing is evicted here: the budget is the
    /// manager's to keep.
    pub fn put_tree(
        &mut self,
        repo_path: &str,
        tree_id: &str,
        tree: Tree,
        size_bytes: u64,
        now: u64,
    )
        ensures
            final(self)@ == replaced(
                old(self)@,
                fresh(repo_path@, tree_key(tree_id@), size_bytes, now, tree),
            ),
            old(self).wf() ==> final(self).wf(),
    {
        let repo = String::from_str(repo_path);
        let key = make_key(tree_id, None, None, 0, 0);
        self.trees.discard(&repo, &key);
        self.trees.insert(make_slot(&repo, key, size_bytes, now, tree));
    }
}

/// Blame lines of file and commit windows.
#[derive(Debug)]
pub struct BlameCache {
    blame_chunks: Store<Vec<BlameLine>>,
}

impl View for BlameCache {
    type V = Seq<Entry<Vec<BlameLine>>>;

    closed spec fn view(&self) -> Seq<Entry<Vec<BlameLine>>> {
        self.blame_chunks@
    }
}

impl BlameCache {
    /// No entry occurs twice.
    pub open spec fn wf(&self) -> bool {
        distinct(self@)
    }

    /// The empty cache.
    pub fn new() -> (c: BlameCache)
        ensures
            c@ == Seq::<Entry<Vec<BlameLine>>>::empty(),
            c.wf(),
    {
        BlameCache { blame_chunks: Store::new() }
    }

    /// The cached blame lines, if resident. A miss is no error. Looking
    /// here does not count as an access.
    pub fn get_blame_lines(
        &self,
        repo_path: &str,
        commit_id: &str,
        file_path: &str,
        start_line: usize,
        end_line: usize,
    ) -> (r: Option<&[BlameLine]>)
        ensures
            match r {
                Some(v) => lookup(
                    self@,
                    repo_path@,
                    blame_key(commit_id@, file_path@, start_line, end_line),
                ) matches Some(held) && held@ == v@,
                None => lookup(
                    self@,
                    repo_path@,
                    blame_key(commit_id@, file_path@, start_line, end_line),
                ) is None,
            },
    {
        let repo = String::from_str(repo_path);
        let key = make_key(commit_id, Some(file_path), None, start_line as u64, end_line as u64);
        match self.blame_chunks.peek(&repo, &key) {
            Some(v) => Some(v.as_slice()),
            None => None,
        }
    }

    /// Store the blame lines with its declared size, in place of a resident
    /// entry with the same key. Nothing is evicted here: the budget is the
    /// manager's to keep.
    pub fn put_blame_lines(
        &mut self,
        repo_path: &str,
        commit_id: &str,
        file_path: &str,
        start_line: usize,
        end_line: usize,
        lines: Vec<BlameLine>,
        size_bytes: u64,
        now: u64,
    )
        ensures
            final(self)@ == replaced(
                old(self)@,
                fresh(
                    repo_path@,
                    blame_key(commit_id@, file_path@, start_line, end_line),
                    size_bytes,
                    now,
                    lines,
                ),
            ),
            old(self).wf() ==> final(self).wf(),
    {
        let repo = String::from_str(repo_path);
        let key = make_key(commit_id, Some(file_path), None, start_line as u64, end_line as u64);
        self.blame_chunks.discard(&repo, &key);
        self.blame_chunks.insert(make_slot(&repo, key, size_bytes, now, lines));
    }
}

/// Diff summaries and chunks of recently viewed commits and files.
#[derive(Debug)]
pub struct DiffCache {
    diff_summaries: Store<DiffSummary>,
    diff_chunks: Store<Vec<DiffChunk>>,
}

impl DiffCache {
    /// The resident diff summaries.
    pub closed spec fn summaries(&self) -> Seq<Entry<DiffSummary>> {
        self.diff_summaries@
    }

    /// The resident diff chunks.
    pub closed spec fn chunks(&self) -> Seq<Entry<Vec<DiffChunk>>> {
        self.diff_chunks@
    }

    /// No entry occurs twice.
    pub open spec fn wf(&self) -> bool {
        distinct(self.summaries()) && distinct(self.chunks())
    }

    /// The empty cache.
    pub fn new() -> (c: DiffCache)
        ensures
            c.summaries() == Seq::<Entry<DiffSummary>>::empty(),
            c.chunks() == Seq::<Entry<Vec<DiffChunk>>>::empty(),
            c.wf(),
    {
        DiffCache { diff_summaries: Store::new(), diff_chunks: Store::new() }
    }

    /// The cached diff summary, if resident. A miss is no error. Looking
    /// here does not count as an access.
    pub fn get_diff_summary(
        &self,
        repo_path: &str,
        from_commit: &str,
        to_commit: &str,
    ) -> (r: Option<&DiffSummary>)
        ensures
            match r {
                Some(v) => lookup(
                    self.summaries(),
                    repo_path@,
                    diff_key(from_commit@, to_commit@),
                ) == Some(*v),
                None => lookup(
                    self.summaries(),
                    repo_path@,
                    diff_key(from_commit@, to_commit@),
                ) is None,
            },
    {
        let repo = String::from_str(repo_path);
        let key = make_key(from_commit, Some(to_commit), None, 0, 0);
        self.diff_summaries.peek(&repo, &key)
    }

    /// Store the diff summary with its declared size, in place of a resident
    /// entry with the same key. Nothing is evicted here: the budget is the
    /// manager's to keep.
    pub fn put_diff_summary(
        &mut self,
        repo_path: &str,
        from_commit: &str,
        to_commit: &str,
        summary: DiffSummary,
        size_bytes: u64,
        now: u64,
    )
        ensures
            final(self).summaries() == replaced(
                old(self).summaries(),
                fresh(repo_path@, diff_key(from_commit@, to_commit@), size_bytes, now, summary),
            ),
            old(self).wf() ==> final(self).wf(),
            final(self).chunks() == old(self).chunks(),
    {
        let repo = String::from_str(repo_path);
        let key = make_key(from_commit, Some(to_commit), None, 0, 0);
        self.diff_summaries.discard(&repo, &key);
        self.diff_summaries.insert(make_slot(&repo, key, size_bytes, now, summary));
    }

    /// The cached diff chunks, if resident. A miss is no error. Looking
    /// here does not count as an access.
    pub fn get_diff_chunks(
        &self,
        repo_path: &str,
        from_commit: &str,
        to_commit: &str,
        file_path: &str,
    ) -> (r: Option<&[DiffChunk]>)
        ensures
            match r {
                Some(v) => lookup(
                    self.chunks(),
                    repo_path@,
                    chunks_key(from_commit@, to_commit@, file_path@),
                ) matches Some(held) && held@ == v@,
                None => lookup(
                    self.chunks(),
                    repo_path@,
                    chunks_key(from_commit@, to_commit@, file_path@),
                ) is None,
            },
    {
        let repo = String::from_str(repo_path);
        let key = make_key(from_commit, Some(to_commit), Some(file_path), 0, 0);
        match self.diff_chunks.peek(&repo, &key) {
            Some(v) => Some(v.as_slice()),
            None => None,
        }
    }

    /// Store the diff chunks with its declared size, in place of a resident
    /// entry with the same key. Nothing is evicted here: the budget is the
    /// manager's to keep.
    pub fn put_diff_chunks(
        &mut self,
        repo_path: &str,
        from_commit: &str,
        to_commit: &str,
        file_path: &str,
        chunks: Vec<DiffChunk>,
        size_bytes: u64,
        now: u64,
    )
        ensures
            final(self).chunks() == replaced(
                old(self).chunks(),
                fresh(
                    repo_path@,
                    chunks_key(from_commit@, to_commit@, file_path@),
                    size_bytes,
                    now,
                    chunks,
                ),
            ),
            old(self).wf() ==> final(self).wf(),
            final(self).summaries() == old(self).summaries(),
    {
        let repo = String::from_str(repo_path);
        let key = make_key(from_commit, Some(to_commit), Some(file_path), 0, 0);
        self.diff_chunks.discard(&repo, &key);
        self.diff_chunks.insert(make_slot(&repo, key, size_bytes, now, chunks));
    }
}

/// The five kinds of cached results.
#[derive(Debug, Clone, Copy, PartialEq, Eq, Structural)]
pub enum CacheKind {
    Window,
    Tree,
    DiffSummary,
    DiffChunks,
    Blame,
}

/// The bookkeeping of one entry, without its value.
pub struct Meta {
    pub repo: Seq<char>,
    pub bytes: u64,
    pub last_access: u64,
    pub hits: u64,
    pub inserted: u64,
}

impl Meta {
    /// Whether eviction within `scope` may take this entry.
    pub open spec fn in_scope(self, scope: Option<Seq<char>>) -> bool {
        match scope {
            None => true,
            Some(repo) => self.repo == repo,
        }
    }

    /// What eviction orders entries by.
    pub open spec fn rank(self, strategy: EvictionStrategy) -> (u64, u64) {
        match strategy {
            EvictionStrategy::Lru => (self.last_access, self.inserted),
            EvictionStrategy::Lfu => (self.hits, self.inserted),
        }
    }
}

/// The bookkeeping of `e`.
pub open spec fn meta_of<V>(e: Entry<V>) -> Meta {
    Meta {
        repo: e.repo,
        bytes: e.bytes,
        last_access: e.last_access,
        hits: e.hits,
        inserted: e.inserted,
    }
}

/// An entry chosen for eviction: where it is and what it ranks.
pub struct Pick {
    pub rank: (u64, u64),
    pub kind: CacheKind,
    pub index: int,
}

/// The entry that eviction within `scope` would take from one cache.
pub open spec fn candidate<V>(
    slots: Seq<Entry<V>>,
    strategy: EvictionStrategy,
    scope: Option<Seq<char>>,
    kind: CacheKind,
) -> Option<Pick> {
    match victim_in(slots, strategy, scope, slots.len() as int) {
        Some(i) => Some(Pick { rank: slots[i].rank(strategy), kind, index: i }),
        None => None,
    }
}

/// The one of two candidates that goes first; the earlier cache wins a tie.
pub open spec fn prefer(best: Option<Pick>, next: Option<Pick>) -> Option<Pick> {
    match best {
        None => next,
        Some(b) => match next {
            None => best,
            Some(n) => if before(n.rank, b.rank) {
                next
            } else {
                best
            },
        },
    }
}

/// Everything that is resident in the five caches of one manager.
pub struct Residents {
    pub windows: Seq<Entry<CommitGraphWindow>>,
    pub trees: Seq<Entry<Tree>>,
    pub summaries: Seq<Entry<DiffSummary>>,
    pub chunks: Seq<Entry<Vec<DiffChunk>>>,
    pub blames: Seq<Entry<Vec<BlameLine>>>,
}

impl Residents {
    /// Nothing is resident.
    pub open spec fn empty() -> Residents {
        Residents {
            windows: Seq::empty(),
            trees: Seq::empty(),
            summaries: Seq::empty(),
            chunks: Seq::empty(),
            blames: Seq::empty(),
        }
    }

    /// No entry occurs twice in its cache.
    pub open spec fn wf(self) -> bool {
        &&& distinct(self.windows)
        &&& distinct(self.trees)
        &&& distinct(self.summaries)
        &&& distinct(self.chunks)
        &&& distinct(self.blames)
    }

    /// Number of resident entries.
    pub open spec fn count(self) -> nat {
        self.windows.len() + self.trees.len() + self.summaries.len() + self.chunks.len()
            + self.blames.len()
    }

    /// Number of resident entries of one kind.
    pub open spec fn len_of(self, kind: CacheKind) -> nat {
        match kind {
            CacheKind::Window => self.windows.len(),
            CacheKind::Tree => self.trees.len(),
            CacheKind::DiffSummary => self.summaries.len(),
            CacheKind::DiffChunks => self.chunks.len(),
            CacheKind::Blame => self.blames.len(),
        }
    }

    /// Whether `index` names a resident entry of `kind`.
    pub open spec fn has(self, kind: CacheKind, index: int) -> bool {
        0 <= index < self.len_of(kind)
    }

    /// The bookkeeping of the entry `index` of `kind`.
    pub open spec fn meta_at(self, kind: CacheKind, index: int) -> Meta {
        match kind {
            CacheKind::Window => meta_of(self.windows[index]),
            CacheKind::Tree => meta_of(self.trees[index]),
            CacheKind::DiffSummary => meta_of(self.summaries[index]),
            CacheKind::DiffChunks => meta_of(self.chunks[index]),
            CacheKind::Blame => meta_of(self.blames[index]),
        }
    }

    /// Bytes in use by all caches together.
    pub open spec fn total(self) -> nat {
        sum_bytes(self.windows) + sum_bytes(self.trees) + sum_bytes(self.summaries) + sum_bytes(
            self.chunks,
        ) + sum_bytes(self.blames)
    }

    /// Bytes in use by all caches together for one repository.
    pub open spec fn repo_total(self, repo: Seq<char>) -> nat {
        repo_bytes(self.windows, repo) + repo_bytes(self.trees, repo) + repo_bytes(
            self.summaries,
            repo,
        ) + repo_bytes(self.chunks, repo) + repo_bytes(self.blames, repo)
    }

    /// Whether the bounds of `policy` are kept for `repo`: the total, and the
    /// bytes of that repository.
    pub open spec fn within_for(self, policy: CachePolicy, repo: Seq<char>) -> bool {
        &&& self.total() <= policy.max_total_bytes
        &&& self.repo_total(repo) <= policy.max_per_repo_bytes
    }

    /// Whether both bounds of `policy` are kept: the total, and the bytes of
    /// every repository.
    pub open spec fn within(self, policy: CachePolicy) -> bool {
        &&& self.total() <= policy.max_total_bytes
        &&& forall|repo: Seq<char>| #[trigger] self.repo_total(repo) <= policy.max_per_repo_bytes
    }

    /// The entry that eviction within `scope` takes: one in scope that no
    /// other entry in scope goes strictly before.
    pub open spec fn victim(self, strategy: EvictionStrategy, scope: Option<Seq<char>>) -> Option<
        Pick,
    > {
        prefer(
            prefer(
                prefer(
                    prefer(
                        candidate(self.windows, strategy, scope, CacheKind::Window),
                        candidate(self.trees, strategy, scope, CacheKind::Tree),
                    ),
                    candidate(self.summaries, strategy, scope, CacheKind::DiffSummary),
                ),
                candidate(self.chunks, strategy, scope, CacheKind::DiffChunks),
            ),
            candidate(self.blames, strategy, scope, CacheKind::Blame),
        )
    }

    /// The residents without the entry `index` of `kind`.
    pub open spec fn without(self, kind: CacheKind, index: int) -> Residents {
        match kind {
            CacheKind::Window => Residents { windows: self.windows.remove(index), ..self },
            CacheKind::Tree => Residents { trees: self.trees.remove(index), ..self },
            CacheKind::DiffSummary => Residents {
                summaries: self.summaries.remove(index),
                ..self
            },
            CacheKind::DiffChunks => Residents { chunks: self.chunks.remove(index), ..self },
            CacheKind::Blame => Residents { blames: self.blames.remove(index), ..self },
        }
    }

    /// Which bound an entry of `bytes` for `repo` would break if it came in
    /// now: `Some(Some(repo))` for the bound of the repository, `Some(None)`
    /// for the total, `None` when it fits.
    pub open spec fn pressure(self, policy: CachePolicy, repo: Seq<char>, bytes: u64) -> Option<
        Option<Seq<char>>,
    > {
        if self.repo_total(repo) + bytes > policy.max_per_repo_bytes {
            Some(Some(repo))
        } else if self.total() + bytes > policy.max_total_bytes {
            Some(None)
        } else {
            None
        }
    }

    /// The residents once room is made for an entry of `bytes` for `repo`:
    /// as long as a bound would break, the victim goes, within the repository
    /// while its bound is the one at stake, among everything after that.
    pub open spec fn make_room(self, policy: CachePolicy, repo: Seq<char>, bytes: u64) -> Residents
        decreases self.count(),
    {
        match self.pressure(policy, repo, bytes) {
            None => self,
            Some(scope) => match self.victim(policy.eviction, scope) {
                None => self,
                Some(p) => {
                    proof {
                        self.lemma_victim(policy.eviction, scope);
                    }
                    self.without(p.kind, p.index).make_room(policy, repo, bytes)
                },
            },
        }
    }

    /// What invalidation for `repo` leaves: the position-addressed entries of
    /// that repository are gone, the trees and all other repositories stay.
    pub open spec fn invalidated(self, repo: Seq<char>) -> Residents {
        Residents {
            windows: purged(self.windows, repo),
            trees: self.trees,
            summaries: purged(self.summaries, repo),
            chunks: purged(self.chunks, repo),
            blames: purged(self.blames, repo),
        }
    }

    /// The residents after a put of the commit graph window `e` under `policy`. A
    /// resident entry with the same key gives way first. An entry larger than
    /// a bound is not taken in. Else room is made and `e` comes in.
    pub open spec fn with_window(self, policy: CachePolicy, e: Entry<CommitGraphWindow>) -> Residents {
        let cleared = Residents { windows: dropped(self.windows, e.repo, e.key), ..self };
        if policy.admits(e.bytes) {
            let roomy = cleared.make_room(policy, e.repo, e.bytes);
            Residents { windows: roomy.windows.push(e), ..roomy }
        } else {
            cleared
        }
    }

    /// The residents after a put of the tree `e` under `policy`. A
    /// resident entry with the same key gives way first. An entry larger than
    /// a bound is not taken in. Else room is made and `e` comes in.
    pub open spec fn with_tree(self, policy: CachePolicy, e: Entry<Tree>) -> Residents {
        let cleared = Residents { trees: dropped(self.trees, e.repo, e.key), ..self };
        if policy.admits(e.bytes) {
            let roomy = cleared.make_room(policy, e.repo, e.bytes);
            Residents { trees: roomy.trees.push(e), ..roomy }
        } else {
            cleared
        }
    }

    /// The residents after a put of the diff summary `e` under `policy`. A
    /// resident entry with the same key gives way first. An entry larger than
    /// a bound is not taken in. Else room is made and `e` comes in.
    pub open spec fn with_diff_summary(self, policy: CachePolicy, e: Entry<DiffSummary>) -> Residents {
        let cleared = Residents { summaries: dropped(self.summaries, e.repo, e.key), ..self };
        if policy.admits(e.bytes) {
            let roomy = cleared.make_room(policy, e.repo, e.bytes);
            Residents { summaries: roomy.summaries.push(e), ..roomy }
        } else {
            cleared
        }
    }

    /// The residents after a put of the diff chunks `e` under `policy`. A
    /// resident entry with the same key gives way first. An entry larger than
    /// a bound is not taken in. Else room is made and `e` comes in.
    pub open spec fn with_diff_chunks(self, policy: CachePolicy, e: Entry<Vec<DiffChunk>>) -> Residents {
        let cleared = Residents { chunks: dropped(self.chunks, e.repo, e.key), ..self };
        if policy.admits(e.bytes) {
            let roomy = cleared.make_room(policy, e.repo, e.bytes);
            Residents { chunks: roomy.chunks.push(e), ..roomy }
        } else {
            cleared
        }
    }

    /// The residents after a put of the blame lines `e` under `policy`. A
    /// resident entry with the same key gives way first. An entry larger than
    /// a bound is not taken in. Else room is made and `e` comes in.
    pub open spec fn with_blame_lines(self, policy: CachePolicy, e: Entry<Vec<BlameLine>>) -> Residents {
        let cleared = Residents { blames: dropped(self.blames, e.repo, e.key), ..self };
        if policy.admits(e.bytes) {
            let roomy = cleared.make_room(policy, e.repo, e.bytes);
            Residents { blames: roomy.blames.push(e), ..roomy }
        } else {
            cleared
        }
    }

    /// After a put, the commit graph window that came in is served under its key.
    /// A value larger than a bound of the policy is not served.
    pub proof fn lemma_window_served(self, policy: CachePolicy, e: Entry<CommitGraphWindow>)
        ensures
            lookup(self.with_window(policy, e).windows, e.repo, e.key) == (if policy.admits(
                e.bytes,
            ) {
                Some(e.value)
            } else {
                None
            }),
    {
        self.lemma_put(policy, CacheKind::Window, e.repo, e.key, e.bytes);
        let cleared = self.cleared(CacheKind::Window, e.repo, e.key);
        if policy.admits(e.bytes) {
            let roomy = cleared.make_room(policy, e.repo, e.bytes);
            store::lemma_lookup_pushed(roomy.windows, e, e.repo, e.key);
        } else {
            lemma_dropped_gone(self.windows, e.repo, e.key);
            lemma_first_in(cleared.windows, e.repo, e.key, cleared.windows.len() as int);
        }
    }

    /// After a put, the tree that came in is served under its key.
    /// A value larger than a bound of the policy is not served.
    pub proof fn lemma_tree_served(self, policy: CachePolicy, e: Entry<Tree>)
        ensures
            lookup(self.with_tree(policy, e).trees, e.repo, e.key) == (if policy.admits(
                e.bytes,
            ) {
                Some(e.value)
            } else {
                None
            }),
    {
        self.lemma_put(policy, CacheKind::Tree, e.repo, e.key, e.bytes);
        let cleared = self.cleared(CacheKind::Tree, e.repo, e.key);
        if policy.admits(e.bytes) {
            let roomy = cleared.make_room(policy, e.repo, e.bytes);
            store::lemma_lookup_pushed(roomy.trees, e, e.repo, e.key);
        } else {
            lemma_dropped_gone(self.trees, e.repo, e.key);
            lemma_first_in(cleared.trees, e.repo, e.key, cleared.trees.len() as int);
        }
    }

    /// After a put, the diff summary that came in is served under its key.
    /// A value larger than a bound of the policy is not served.
    pub proof fn lemma_diff_summary_served(self, policy: CachePolicy, e: Entry<DiffSummary>)
        ensures
            lookup(self.with_diff_summary(policy, e).summaries, e.repo, e.key) == (if policy.admits(
                e.bytes,
            ) {
                Some(e.value)
            } else {
                None
            }),
    {
        self.lemma_put(policy, CacheKind::DiffSummary, e.repo, e.key, e.bytes);
        let cleared = self.cleared(CacheKind::DiffSummary, e.repo, e.key);
        if policy.admits(e.bytes) {
            let roomy = cleared.make_room(policy, e.repo, e.bytes);
            store::lemma_lookup_pushed(roomy.summaries, e, e.repo, e.key);
        } else {
            lemma_dropped_gone(self.summaries, e.repo, e.key);
            lemma_first_in(cleared.summaries, e.repo, e.key, cleared.summaries.len() as int);
        }
    }

    /// After a put, the diff chunks that came in is served under its key.
    /// A value larger than a bound of the policy is not served.
    pub proof fn lemma_diff_chunks_served(self, policy: CachePolicy, e: Entry<Vec<DiffChunk>>)
        ensures
            lookup(self.with_diff_chunks(policy, e).chunks, e.repo, e.key) == (if policy.admits(
                e.bytes,
            ) {
                Some(e.value)
            } else {
                None
            }),
    {
        self.lemma_put(policy, CacheKind::DiffChunks, e.repo, e.key, e.bytes);
        let cleared = self.cleared(CacheKind::DiffChunks, e.repo, e.key);
        if policy.admits(e.bytes) {
            let roomy = cleared.make_room(policy, e.repo, e.bytes);
            store::lemma_lookup_pushed(roomy.chunks, e, e.repo, e.key);
        } else {
            lemma_dropped_gone(self.chunks, e.repo, e.key);
            lemma_first_in(cleared.chunks, e.repo, e.key, cleared.chunks.len() as int);
        }
    }

    /// After a put, the blame lines that came in is served under its key.
    /// A value larger than a bound of the policy is not served.
    pub proof fn lemma_blame_lines_served(self, policy: CachePolicy, e: Entry<Vec<BlameLine>>)
        ensures
            lookup(self.with_blame_lines(policy, e).blames, e.repo, e.key) == (if policy.admits(
                e.bytes,
            ) {
                Some(e.value)
            } else {
                None
            }),
    {
        self.lemma_put(policy, CacheKind::Blame, e.repo, e.key, e.bytes);
        let cleared = self.cleared(CacheKind::Blame, e.repo, e.key);
        if policy.admits(e.bytes) {
            let roomy = cleared.make_room(policy, e.repo, e.bytes);
            store::lemma_lookup_pushed(roomy.blames, e, e.repo, e.key);
        } else {
            lemma_dropped_gone(self.blames, e.repo, e.key);
            lemma_first_in(cleared.blames, e.repo, e.key, cleared.blames.len() as int);
        }
    }

    /// The victim is a resident entry in scope, and no resident entry in
    /// scope goes strictly before it in the eviction order. There is no victim
    /// only when nothing in scope is resident.
    pub proof fn lemma_victim(self, strategy: EvictionStrategy, scope: Option<Seq<char>>)
        ensures
            match self.victim(strategy, scope) {
                Some(p) => self.has(p.kind, p.index) && self.meta_at(p.kind, p.index).in_scope(
                    scope,
                ) && p.rank == self.meta_at(p.kind, p.index).rank(strategy) && forall|
                    kind: CacheKind,
                    index: int,
                |
                    self.has(kind, index) && (#[trigger] self.meta_at(kind, index)).in_scope(scope)
                        ==> !before(self.meta_at(kind, index).rank(strategy), p.rank),
                None => forall|kind: CacheKind, index: int|
                    self.has(kind, index) ==> !(#[trigger] self.meta_at(kind, index)).in_scope(
                        scope,
                    ),
            },
    {
        lemma_victim_in(self.windows, strategy, scope, self.windows.len() as int);
        lemma_victim_in(self.trees, strategy, scope, self.trees.len() as int);
        lemma_victim_in(self.summaries, strategy, scope, self.summaries.len() as int);
        lemma_victim_in(self.chunks, strategy, scope, self.chunks.len() as int);
        lemma_victim_in(self.blames, strategy, scope, self.blames.len() as int);
        let c1 = candidate(self.windows, strategy, scope, CacheKind::Window);
        let c2 = candidate(self.trees, strategy, scope, CacheKind::Tree);
        let c3 = candidate(self.summaries, strategy, scope, CacheKind::DiffSummary);
        let c4 = candidate(self.chunks, strategy, scope, CacheKind::DiffChunks);
        let c5 = candidate(self.blames, strategy, scope, CacheKind::Blame);
        let b2 = prefer(c1, c2);
        let b3 = prefer(b2, c3);
        let b4 = prefer(b3, c4);
        let b5 = prefer(b4, c5);
        assert(b5 == self.victim(strategy, scope));
        match b5 {
            Some(p) => {
                assert forall|kind: CacheKind, index: int|
                    self.has(kind, index) && (#[trigger] self.meta_at(kind, index)).in_scope(
                        scope,
                    ) implies !before(self.meta_at(kind, index).rank(strategy), p.rank) by {
                    match kind {
                        CacheKind::Window => {
                            assert(self.windows[index].in_scope(scope));
                        },
                        CacheKind::Tree => {
                            assert(self.trees[index].in_scope(scope));
                        },
                        CacheKind::DiffSummary => {
                            assert(self.summaries[index].in_scope(scope));
                        },
                        CacheKind::DiffChunks => {
                            assert(self.chunks[index].in_scope(scope));
                        },
                        CacheKind::Blame => {
                            assert(self.blames[index].in_scope(scope));
                        },
                    }
                }
            },
            None => {
                assert forall|kind: CacheKind, index: int| self.has(kind, index) implies !(
                #[trigger] self.meta_at(kind, index)).in_scope(scope) by {
                    match kind {
                        CacheKind::Window => {
                            assert(!self.windows[index].in_scope(scope));
                        },
                        CacheKind::Tree => {
                            assert(!self.trees[index].in_scope(scope));
                        },
                        CacheKind::DiffSummary => {
                            assert(!self.summaries[index].in_scope(scope));
                        },
                        CacheKind::DiffChunks => {
                            assert(!self.chunks[index].in_scope(scope));
                        },
                        CacheKind::Blame => {
                            assert(!self.blames[index].in_scope(scope));
                        },
                    }
                }
            },
        }
    }

    /// Under `Lru` the entry that eviction takes has the oldest last access
    /// among the residents in scope.
    pub proof fn lemma_lru_victim_is_oldest(self, scope: Option<Seq<char>>)
        ensures
            match self.victim(EvictionStrategy::Lru, scope) {
                Some(p) => self.has(p.kind, p.index) && forall|kind: CacheKind, index: int|
                    self.has(kind, index) && (#[trigger] self.meta_at(kind, index)).in_scope(scope)
                        ==> self.meta_at(p.kind, p.index).last_access <= self.meta_at(
                        kind,
                        index,
                    ).last_access,
                None => true,
            },
    {
        self.lemma_victim(EvictionStrategy::Lru, scope);
    }

    /// Under `Lfu` the entry that eviction takes has the lowest access count
    /// among the residents in scope, and among those with that count the
    /// oldest insertion.
    pub proof fn lemma_lfu_victim_is_rarest(self, scope: Option<Seq<char>>)
        ensures
            match self.victim(EvictionStrategy::Lfu, scope) {
                Some(p) => self.has(p.kind, p.index) && forall|kind: CacheKind, index: int|
                    self.has(kind, index) && (#[trigger] self.meta_at(kind, index)).in_scope(scope)
                        ==> {
                        let v = self.meta_at(p.kind, p.index);
                        let o = self.meta_at(kind, index);
                        v.hits < o.hits || (v.hits == o.hits && v.inserted <= o.inserted)
                    },
                None => true,
            },
    {
        self.lemma_victim(EvictionStrategy::Lfu, scope);
    }

    /// Taking an entry out lowers the bytes in use by its size, for its own
    /// repository and in total, and leaves every other repository alone.
    pub proof fn lemma_without(self, kind: CacheKind, index: int, repo: Seq<char>)
        requires
            self.has(kind, index),
        ensures
            self.without(kind, index).count() + 1 == self.count(),
            self.without(kind, index).total() + self.meta_at(kind, index).bytes == self.total(),
            self.without(kind, index).repo_total(repo) + (if self.meta_at(kind, index).repo
                == repo {
                self.meta_at(kind, index).bytes as nat
            } else {
                0
            }) == self.repo_total(repo),
            self.wf() ==> self.without(kind, index).wf(),
    {
        match kind {
            CacheKind::Window => {
                lemma_remove_bytes(self.windows, index, repo);
                lemma_remove_distinct(self.windows, index);
            },
            CacheKind::Tree => {
                lemma_remove_bytes(self.trees, index, repo);
                lemma_remove_distinct(self.trees, index);
            },
            CacheKind::DiffSummary => {
                lemma_remove_bytes(self.summaries, index, repo);
                lemma_remove_distinct(self.summaries, index);
            },
            CacheKind::DiffChunks => {
                lemma_remove_bytes(self.chunks, index, repo);
                lemma_remove_distinct(self.chunks, index);
            },
            CacheKind::Blame => {
                lemma_remove_bytes(self.blames, index, repo);
                lemma_remove_distinct(self.blames, index);
            },
        }
    }

    /// Where bytes are in use within a scope, an entry of that scope is
    /// resident.
    pub proof fn lemma_in_use_has_entry(self, scope: Option<Seq<char>>)
        requires
            match scope {
                Some(repo) => self.repo_total(repo) > 0,
                None => self.total() > 0,
            },
        ensures
            exists|kind: CacheKind, index: int|
                self.has(kind, index) && (#[trigger] self.meta_at(kind, index)).in_scope(scope),
    {
        let repo = match scope {
            Some(repo) => repo,
            None => Seq::empty(),
        };
        lemma_repo_bytes_bounds(self.windows, repo);
        lemma_repo_bytes_bounds(self.trees, repo);
        lemma_repo_bytes_bounds(self.summaries, repo);
        lemma_repo_bytes_bounds(self.chunks, repo);
        lemma_repo_bytes_bounds(self.blames, repo);
        if scope is Some {
            if repo_bytes(self.windows, repo) > 0 {
                let i = choose|i: int|
                    0 <= i < self.windows.len() && (#[trigger] self.windows[i]).repo == repo;
                assert(self.has(CacheKind::Window, i)
                    && self.meta_at(CacheKind::Window, i).in_scope(scope));
            } else if repo_bytes(self.trees, repo) > 0 {
                let i = choose|i: int|
                    0 <= i < self.trees.len() && (#[trigger] self.trees[i]).repo == repo;
                assert(self.has(CacheKind::Tree, i)
                    && self.meta_at(CacheKind::Tree, i).in_scope(scope));
            } else if repo_bytes(self.summaries, repo) > 0 {
                let i = choose|i: int|
                    0 <= i < self.summaries.len() && (#[trigger] self.summaries[i]).repo == repo;
                assert(self.has(CacheKind::DiffSummary, i)
                    && self.meta_at(CacheKind::DiffSummary, i).in_scope(scope));
            } else if repo_bytes(self.chunks, repo) > 0 {
                let i = choose|i: int|
                    0 <= i < self.chunks.len() && (#[trigger] self.chunks[i]).repo == repo;
                assert(self.has(CacheKind::DiffChunks, i)
                    && self.meta_at(CacheKind::DiffChunks, i).in_scope(scope));
            } else {
                let i = choose|i: int|
                    0 <= i < self.blames.len() && (#[trigger] self.blames[i]).repo == repo;
                assert(self.has(CacheKind::Blame, i)
                    && self.meta_at(CacheKind::Blame, i).in_scope(scope));
            }
        } else {
            if sum_bytes(self.windows) > 0 {
                assert(self.has(CacheKind::Window, 0)
                    && self.meta_at(CacheKind::Window, 0).in_scope(scope));
            } else if sum_bytes(self.trees) > 0 {
                assert(self.has(CacheKind::Tree, 0)
                    && self.meta_at(CacheKind::Tree, 0).in_scope(scope));
            } else if sum_bytes(self.summaries) > 0 {
                assert(self.has(CacheKind::DiffSummary, 0)
                    && self.meta_at(CacheKind::DiffSummary, 0).in_scope(scope));
            } else if sum_bytes(self.chunks) > 0 {
                assert(self.has(CacheKind::DiffChunks, 0)
                    && self.meta_at(CacheKind::DiffChunks, 0).in_scope(scope));
            } else {
                assert(self.has(CacheKind::Blame, 0)
                    && self.meta_at(CacheKind::Blame, 0).in_scope(scope));
            }
        }
    }

    /// Making room never adds bytes anywhere, keeps entries unique, and, for
    /// an entry that is no larger than either bound, ends with room for it
    /// under both bounds.
    pub proof fn lemma_make_room(self, policy: CachePolicy, repo: Seq<char>, bytes: u64)
        ensures
            self.make_room(policy, repo, bytes).total() <= self.total(),
            forall|other: Seq<char>| #[trigger]
                self.make_room(policy, repo, bytes).repo_total(other) <= self.repo_total(other),
            self.wf() ==> self.make_room(policy, repo, bytes).wf(),
            policy.admits(bytes) ==> self.make_room(policy, repo, bytes).pressure(
                policy,
                repo,
                bytes,
            ) is None,
        decreases self.count(),
    {
        match self.pressure(policy, repo, bytes) {
            None => {},
            Some(scope) => {
                self.lemma_victim(policy.eviction, scope);
                match self.victim(policy.eviction, scope) {
                    None => {
                        if policy.admits(bytes) {
                            self.lemma_in_use_has_entry(scope);
                        }
                    },
                    Some(p) => {
                        let next = self.without(p.kind, p.index);
                        self.lemma_without(p.kind, p.index, repo);
                        next.lemma_make_room(policy, repo, bytes);
                        assert forall|other: Seq<char>| #[trigger]
                            self.make_room(policy, repo, bytes).repo_total(other)
                                <= self.repo_total(other) by {
                            self.lemma_without(p.kind, p.index, other);
                        }
                    },
                }
            },
        }
    }

    /// Purging a repository never adds bytes anywhere and keeps entries
    /// unique.
    pub proof fn lemma_invalidated(self, repo: Seq<char>, policy: CachePolicy)
        ensures
            self.wf() ==> self.invalidated(repo).wf(),
            self.within(policy) ==> self.invalidated(repo).within(policy),
            self.invalidated(repo).total() <= self.total(),
            forall|other: Seq<char>| #[trigger]
                self.invalidated(repo).repo_total(other) <= self.repo_total(other),
    {
        lemma_purged(self.windows, repo);
        lemma_purged(self.summaries, repo);
        lemma_purged(self.chunks, repo);
        lemma_purged(self.blames, repo);
        store::lemma_purged_bytes(self.windows, repo, repo);
        store::lemma_purged_bytes(self.summaries, repo, repo);
        store::lemma_purged_bytes(self.chunks, repo, repo);
        store::lemma_purged_bytes(self.blames, repo, repo);
        assert forall|other: Seq<char>| #[trigger]
            self.invalidated(repo).repo_total(other) <= self.repo_total(other) by {
            store::lemma_purged_bytes(self.windows, repo, other);
            store::lemma_purged_bytes(self.summaries, repo, other);
            store::lemma_purged_bytes(self.chunks, repo, other);
            store::lemma_purged_bytes(self.blames, repo, other);
        }
    }

    /// After invalidation no position-addressed entry of the repository is
    /// served any more, whatever its key; the trees are untouched, and for
    /// every other repository each lookup answers as before.
    pub proof fn lemma_invalidated_serves_nothing(
        self,
        repo: Seq<char>,
        other: Seq<char>,
        key: KeyModel,
    )
        ensures
            lookup(self.invalidated(repo).windows, repo, key) is None,
            lookup(self.invalidated(repo).summaries, repo, key) is None,
            lookup(self.invalidated(repo).chunks, repo, key) is None,
            lookup(self.invalidated(repo).blames, repo, key) is None,
            self.invalidated(repo).trees == self.trees,
            other != repo ==> {
                &&& lookup(self.invalidated(repo).windows, other, key) == lookup(
                    self.windows,
                    other,
                    key,
                )
                &&& lookup(self.invalidated(repo).summaries, other, key) == lookup(
                    self.summaries,
                    other,
                    key,
                )
                &&& lookup(self.invalidated(repo).chunks, other, key) == lookup(
                    self.chunks,
                    other,
                    key,
                )
                &&& lookup(self.invalidated(repo).blames, other, key) == lookup(
                    self.blames,
                    other,
                    key,
                )
            },
    {
        store::lemma_purged_lookup(self.windows, repo, other, key);
        store::lemma_purged_lookup(self.summaries, repo, other, key);
        store::lemma_purged_lookup(self.chunks, repo, other, key);
        store::lemma_purged_lookup(self.blames, repo, other, key);
    }

    /// The residents with the entry `key` of `repo` dropped from the cache of
    /// `kind`.
    pub open spec fn cleared(self, kind: CacheKind, repo: Seq<char>, key: KeyModel) -> Residents {
        match kind {
            CacheKind::Window => Residents { windows: dropped(self.windows, repo, key), ..self },
            CacheKind::Tree => Residents { trees: dropped(self.trees, repo, key), ..self },
            CacheKind::DiffSummary => Residents {
                summaries: dropped(self.summaries, repo, key),
                ..self
            },
            CacheKind::DiffChunks => Residents { chunks: dropped(self.chunks, repo, key), ..self },
            CacheKind::Blame => Residents { blames: dropped(self.blames, repo, key), ..self },
        }
    }

    /// What a put does to the budget. Dropping the old entry and making room
    /// never add bytes; an entry that is taken in fits under both bounds; and
    /// the entry that comes in is not resident already.
    pub proof fn lemma_put(
        self,
        policy: CachePolicy,
        kind: CacheKind,
        repo: Seq<char>,
        key: KeyModel,
        bytes: u64,
    )
        ensures
            ({
                let cleared = self.cleared(kind, repo, key);
                let roomy = cleared.make_room(policy, repo, bytes);
                &&& self.wf() ==> cleared.wf() && roomy.wf()
                &&& cleared.total() <= self.total()
                &&& forall|other: Seq<char>| #[trigger]
                    cleared.repo_total(other) <= self.repo_total(other)
                &&& self.within(policy) ==> cleared.within(policy)
                &&& roomy.total() <= cleared.total()
                &&& forall|other: Seq<char>| #[trigger]
                    roomy.repo_total(other) <= cleared.repo_total(other)
                &&& policy.admits(bytes) ==> {
                    &&& roomy.total() + bytes <= policy.max_total_bytes
                    &&& roomy.repo_total(repo) + bytes <= policy.max_per_repo_bytes
                }
                &&& match kind {
                    CacheKind::Window => !holds(roomy.windows, repo, key),
                    CacheKind::Tree => !holds(roomy.trees, repo, key),
                    CacheKind::DiffSummary => !holds(roomy.summaries, repo, key),
                    CacheKind::DiffChunks => !holds(roomy.chunks, repo, key),
                    CacheKind::Blame => !holds(roomy.blames, repo, key),
                }
            }),
    {
        let cleared = self.cleared(kind, repo, key);
        let roomy = cleared.make_room(policy, repo, bytes);
        match kind {
            CacheKind::Window => {
                lemma_dropped_gone(self.windows, repo, key);
            },
            CacheKind::Tree => {
                lemma_dropped_gone(self.trees, repo, key);
            },
            CacheKind::DiffSummary => {
                lemma_dropped_gone(self.summaries, repo, key);
            },
            CacheKind::DiffChunks => {
                lemma_dropped_gone(self.chunks, repo, key);
            },
            CacheKind::Blame => {
                lemma_dropped_gone(self.blames, repo, key);
            },
        }
        self.lemma_cleared(kind, repo, key, repo);
        assert forall|other: Seq<char>| #[trigger]
            cleared.repo_total(other) <= self.repo_total(other) by {
            self.lemma_cleared(kind, repo, key, other);
        }
        cleared.lemma_make_room(policy, repo, bytes);
        cleared.lemma_make_room_keeps_absent(policy, repo, bytes, kind, repo, key);
    }

    /// Dropping an entry never adds bytes anywhere.
    pub proof fn lemma_cleared(self, kind: CacheKind, repo: Seq<char>, key: KeyModel, other: Seq<char>)
        ensures
            self.cleared(kind, repo, key).total() <= self.total(),
            self.cleared(kind, repo, key).repo_total(other) <= self.repo_total(other),
    {
        match kind {
            CacheKind::Window => {
                store::lemma_dropped_bytes(self.windows, repo, key, other);
            },
            CacheKind::Tree => {
                store::lemma_dropped_bytes(self.trees, repo, key, other);
            },
            CacheKind::DiffSummary => {
                store::lemma_dropped_bytes(self.summaries, repo, key, other);
            },
            CacheKind::DiffChunks => {
                store::lemma_dropped_bytes(self.chunks, repo, key, other);
            },
            CacheKind::Blame => {
                store::lemma_dropped_bytes(self.blames, repo, key, other);
            },
        }
    }

    /// Whether the cache of `kind` holds the entry `key` of `repo`.
    pub open spec fn holds_in(self, kind: CacheKind, repo: Seq<char>, key: KeyModel) -> bool {
        match kind {
            CacheKind::Window => holds(self.windows, repo, key),
            CacheKind::Tree => holds(self.trees, repo, key),
            CacheKind::DiffSummary => holds(self.summaries, repo, key),
            CacheKind::DiffChunks => holds(self.chunks, repo, key),
            CacheKind::Blame => holds(self.blames, repo, key),
        }
    }

    /// Making room brings no entry into residence.
    pub proof fn lemma_make_room_keeps_absent(
        self,
        policy: CachePolicy,
        repo: Seq<char>,
        bytes: u64,
        kind: CacheKind,
        absent_repo: Seq<char>,
        absent_key: KeyModel,
    )
        requires
            !self.holds_in(kind, absent_repo, absent_key),
        ensures
            !self.make_room(policy, repo, bytes).holds_in(kind, absent_repo, absent_key),
        decreases self.count(),
    {
        match self.pressure(policy, repo, bytes) {
            None => {},
            Some(scope) => {
                self.lemma_victim(policy.eviction, scope);
                match self.victim(policy.eviction, scope) {
                    None => {},
                    Some(p) => {
                        let next = self.without(p.kind, p.index);
                        self.lemma_without(p.kind, p.index, repo);
                        if p.kind == kind {
                            match kind {
                                CacheKind::Window => {
                                    store::lemma_remove_keeps_absent(
                                        self.windows,
                                        p.index,
                                        absent_repo,
                                        absent_key,
                                    );
                                },
                                CacheKind::Tree => {
                                    store::lemma_remove_keeps_absent(
                                        self.trees,
                                        p.index,
                                        absent_repo,
                                        absent_key,
                                    );
                                },
                                CacheKind::DiffSummary => {
                                    store::lemma_remove_keeps_absent(
                                        self.summaries,
                                        p.index,
                                        absent_repo,
                                        absent_key,
                                    );
                                },
                                CacheKind::DiffChunks => {
                                    store::lemma_remove_keeps_absent(
                                        self.chunks,
                                        p.index,
                                        absent_repo,
                                        absent_key,
                                    );
                                },
                                CacheKind::Blame => {
                                    store::lemma_remove_keeps_absent(
                                        self.blames,
                                        p.index,
                                        absent_repo,
                                        absent_key,
                                    );
                                },
                            }
                        }
                        next.lemma_make_room_keeps_absent(policy, repo, bytes, kind, absent_repo, absent_key);
                    },
                }
            },
        }
    }
}

/// The clock value that follows `clock`; the clock stops at its largest
/// value.
pub open spec fn next_tick(clock: u64) -> u64 {
    if clock < u64::MAX {
        (clock + 1) as u64
    } else {
        clock
    }
}

/// Where an entry chosen for eviction is, together with its rank.
#[derive(Debug, Clone, Copy)]
pub struct Chosen {
    pub kind: CacheKind,
    pub index: usize,
    pub rank: (u64, u64),
}

impl View for Chosen {
    type V = Pick;

    open spec fn view(&self) -> Pick {
        Pick { rank: self.rank, kind: self.kind, index: self.index as int }
    }
}

/// The view of an optional choice.
pub open spec fn pick_of(c: Option<Chosen>) -> Option<Pick> {
    match c {
        Some(c) => Some(c@),
        None => None,
    }
}

fn choose_between(best: Option<Chosen>, kind: CacheKind, next: Option<(usize, u64, u64)>) -> (r:
    Option<Chosen>)
    ensures
        pick_of(r) == prefer(
            pick_of(best),
            match next {
                Some(n) => Some(Pick { rank: (n.1, n.2), kind, index: n.0 as int }),
                None => None,
            },
        ),
{
    match next {
        None => best,
        Some(n) => {
            let chosen = Chosen { kind, index: n.0, rank: (n.1, n.2) };
            match best {
                None => Some(chosen),
                Some(b) => if goes_before(chosen.rank, b.rank) {
                    Some(chosen)
                } else {
                    best
                },
            }
        },
    }
}

/// Index manager that coordinates all caches: it keeps the clock that
/// accesses are stamped with and the byte budget of the policy.
#[derive(Debug)]
pub struct IndexManager {
    /// Cache policy configuration
    pub policy: CachePolicy,
    /// Commit graph cache
    pub commit_graph: CommitGraphCache,
    /// Tree cache
    pub tree_cache: TreeCache,
    /// Diff cache
    pub diff_cache: DiffCache,
    /// Blame cache
    pub blame_cache: BlameCache,
    /// Logical time that the next access is stamped with
    pub clock: u64,
}

impl IndexManager {
    /// Everything that is resident.
    pub open spec fn residents(&self) -> Residents {
        Residents {
            windows: self.commit_graph@,
            trees: self.tree_cache@,
            summaries: self.diff_cache.summaries(),
            chunks: self.diff_cache.chunks(),
            blames: self.blame_cache@,
        }
    }

    /// No entry occurs twice in its cache.
    pub open spec fn wf(&self) -> bool {
        self.residents().wf()
    }

    /// Both bounds of the policy are kept.
    pub open spec fn within_budget(&self) -> bool {
        self.residents().within(self.policy)
    }

    /// Create a new index manager with default configuration.
    pub fn new() -> (m: IndexManager)
        ensures
            m.residents() == Residents::empty(),
            m.clock == 0,
            m.policy.max_total_bytes == 268435456,
            m.policy.max_per_repo_bytes == 268435456,
            m.policy.eviction == EvictionStrategy::Lru,
            m.wf(),
            m.within_budget(),
    {
        IndexManager::with_policy(CachePolicy::default())
    }

    /// Create a new index manager with custom policy.
    pub fn with_policy(policy: CachePolicy) -> (m: IndexManager)
        ensures
            m.residents() == Residents::empty(),
            m.clock == 0,
            m.policy == policy,
            m.wf(),
            m.within_budget(),
    {
        let m = IndexManager {
            policy,
            commit_graph: CommitGraphCache::new(),
            tree_cache: TreeCache::new(),
            diff_cache: DiffCache::new(),
            blame_cache: BlameCache::new(),
            clock: 0,
        };
        proof {
            assert(m.residents() == Residents::empty());
            assert forall|repo: Seq<char>| #[trigger] m.residents().repo_total(repo) == 0 by {}
        }
        m
    }

    /// Bytes in use by all caches together (capped at what 128 bits hold).
    pub fn bytes_in_use(&self) -> (n: u128)
        ensures
            n == capped(self.residents().total()),
    {
        let a = self.commit_graph.windows.total_bytes();
        let b = self.tree_cache.trees.total_bytes();
        let c = self.diff_cache.diff_summaries.total_bytes();
        let d = self.diff_cache.diff_chunks.total_bytes();
        let e = self.blame_cache.blame_chunks.total_bytes();
        add_capped(add_capped(add_capped(add_capped(a, b), c), d), e)
    }

    /// Bytes in use by all caches together for the repository at `repo_path`
    /// (capped at what 128 bits hold).
    pub fn bytes_in_use_for(&self, repo_path: &str) -> (n: u128)
        ensures
            n == capped(self.residents().repo_total(repo_path@)),
    {
        let repo = String::from_str(repo_path);
        self.repo_in_use(&repo)
    }

    fn repo_in_use(&self, repo: &String) -> (n: u128)
        ensures
            n == capped(self.residents().repo_total(repo@)),
    {
        let a = self.commit_graph.windows.repo_bytes(repo);
        let b = self.tree_cache.trees.repo_bytes(repo);
        let c = self.diff_cache.diff_summaries.repo_bytes(repo);
        let d = self.diff_cache.diff_chunks.repo_bytes(repo);
        let e = self.blame_cache.blame_chunks.repo_bytes(repo);
        add_capped(add_capped(add_capped(add_capped(a, b), c), d), e)
    }

    /// The entry that eviction within `scope` takes.
    fn victim(&self, scope: Option<&String>) -> (r: Option<Chosen>)
        ensures
            pick_of(r) == self.residents().victim(self.policy.eviction, store::scope_of(scope)),
    {
        let strategy = self.policy.eviction;
        let c1 = self.commit_graph.windows.victim(strategy, scope);
        let c2 = self.tree_cache.trees.victim(strategy, scope);
        let c3 = self.diff_cache.diff_summaries.victim(strategy, scope);
        let c4 = self.diff_cache.diff_chunks.victim(strategy, scope);
        let c5 = self.blame_cache.blame_chunks.victim(strategy, scope);
        let b1 = choose_between(None, CacheKind::Window, c1);
        let b2 = choose_between(b1, CacheKind::Tree, c2);
        let b3 = choose_between(b2, CacheKind::DiffSummary, c3);
        let b4 = choose_between(b3, CacheKind::DiffChunks, c4);
        choose_between(b4, CacheKind::Blame, c5)
    }

    /// Take the entry `index` of `kind` out.
    fn evict(&mut self, kind: CacheKind, index: usize)
        requires
            old(self).residents().has(kind, index as int),
        ensures
            final(self).residents() == old(self).residents().without(kind, index as int),
            final(self).policy == old(self).policy,
            final(self).clock == old(self).clock,
    {
        match kind {
            CacheKind::Window => {
                self.commit_graph.windows.remove_at(index);
            },
            CacheKind::Tree => {
                self.tree_cache.trees.remove_at(index);
            },
            CacheKind::DiffSummary => {
                self.diff_cache.diff_summaries.remove_at(index);
            },
            CacheKind::DiffChunks => {
                self.diff_cache.diff_chunks.remove_at(index);
            },
            CacheKind::Blame => {
                self.blame_cache.blame_chunks.remove_at(index);
            },
        }
    }

    /// Which bound an entry of `bytes` for `repo` would break if it came in
    /// now.
    fn pressure<'a>(&self, repo: &'a String, bytes: u64) -> (r: Option<Option<&'a String>>)
        ensures
            match r {
                Some(scope) => self.residents().pressure(self.policy, repo@, bytes) == Some(
                    store::scope_of(scope),
                ),
                None => self.residents().pressure(self.policy, repo@, bytes) is None,
            },
    {
        let used = self.repo_in_use(repo);
        if add_capped(used, bytes as u128) > self.policy.max_per_repo_bytes as u128 {
            return Some(Some(repo));
        }
        let total = self.bytes_in_use();
        if add_capped(total, bytes as u128) > self.policy.max_total_bytes as u128 {
            return Some(None);
        }
        None
    }

    /// Evict until an entry of `bytes` for `repo` fits under both bounds.
    fn make_room(&mut self, repo: &String, bytes: u64)
        ensures
            final(self).residents() == old(self).residents().make_room(
                old(self).policy,
                repo@,
                bytes,
            ),
            final(self).policy == old(self).policy,
            final(self).clock == old(self).clock,
    {
        loop
            invariant
                self.policy == old(self).policy,
                self.clock == old(self).clock,
                self.residents().make_room(self.policy, repo@, bytes) == old(
                    self,
                ).residents().make_room(old(self).policy, repo@, bytes),
            ensures
                self.residents() == old(self).residents().make_room(old(self).policy, repo@, bytes),
                self.policy == old(self).policy,
                self.clock == old(self).clock,
            decreases self.residents().count(),
        {
            let scope = match self.pressure(repo, bytes) {
                Some(scope) => scope,
                None => {
                    break ;
                },
            };
            let chosen = match self.victim(scope) {
                Some(chosen) => chosen,
                None => {
                    break ;
                },
            };
            proof {
                self.residents().lemma_victim(self.policy.eviction, store::scope_of(scope));
                self.residents().lemma_without(chosen.kind, chosen.index as int, repo@);
            }
            self.evict(chosen.kind, chosen.index);
        }
    }

    /// Read the clock and move it on.
    fn tick(&mut self) -> (now: u64)
        ensures
            now == old(self).clock,
            final(self).clock == next_tick(old(self).clock),
            final(self).policy == old(self).policy,
            final(self).residents() == old(self).residents(),
    {
        let now = self.clock;
        if self.clock < u64::MAX {
            self.clock = self.clock + 1;
        }
        now
    }

    /// The cached commit graph window, if resident; a miss is no error. A hit counts
    /// as an access at the current clock value, and the clock moves on.
    pub fn get_window(
        &mut self,
        repo_path: &str,
        start_commit: &str,
        window_size: usize,
    ) -> (r: Option<&CommitGraphWindow>)
        ensures
            match r {
                Some(v) => lookup(
                    old(self).commit_graph@,
                    repo_path@,
                    window_key(start_commit@, window_size),
                ) == Some(*v),
                None => lookup(
                    old(self).commit_graph@,
                    repo_path@,
                    window_key(start_commit@, window_size),
                ) is None,
            },
            final(self).residents() == (Residents {
                windows: accessed(
                    old(self).commit_graph@,
                    repo_path@,
                    window_key(start_commit@, window_size),
                    old(self).clock,
                ),
                ..old(self).residents()
            }),
            final(self).clock == next_tick(old(self).clock),
            final(self).policy == old(self).policy,
    {
        let repo = String::from_str(repo_path);
        let key = make_key(start_commit, None, None, window_size as u64, 0);
        let now = self.tick();
        self.commit_graph.windows.fetch(&repo, &key, now)
    }

    /// Store the commit graph window with its declared size. The call always
    /// succeeds. A resident entry with the same key gives way; a value larger
    /// than a bound of the policy is not taken in; else entries are evicted in
    /// the order of the policy until the value fits under both bounds.
    pub fn put_window(
        &mut self,
        repo_path: &str,
        start_commit: &str,
        window_size: usize,
        window: CommitGraphWindow,
        size_bytes: u64,
    )
        ensures
            final(self).residents() == old(self).residents().with_window(
                old(self).policy,
                fresh(
                    repo_path@,
                    window_key(start_commit@, window_size),
                    size_bytes,
                    old(self).clock,
                    window,
                ),
            ),
            final(self).clock == next_tick(old(self).clock),
            final(self).policy == old(self).policy,
            old(self).wf() ==> final(self).wf(),
            old(self).within_budget() ==> final(self).within_budget(),
            old(self).policy.admits(size_bytes) ==> final(self).residents().within_for(
                old(self).policy,
                repo_path@,
            ),
    {
        let repo = String::from_str(repo_path);
        let key = make_key(start_commit, None, None, window_size as u64, 0);
        let now = self.tick();
        self.commit_graph.windows.discard(&repo, &key);
        proof {
            old(self).residents().lemma_put(
                old(self).policy,
                CacheKind::Window,
                repo@,
                key@,
                size_bytes,
            );
        }
        if size_bytes > self.policy.max_per_repo_bytes || size_bytes
            > self.policy.max_total_bytes {
            return ;
        }
        self.make_room(&repo, size_bytes);
        self.commit_graph.windows.insert(make_slot(&repo, key, size_bytes, now, window));
        proof {
            let roomy = old(self).residents().cleared(CacheKind::Window, repo@, key@).make_room(
                old(self).policy,
                repo@,
                size_bytes,
            );
            let e = fresh(repo@, key@, size_bytes, now, window);
            lemma_push_bytes(roomy.windows, e, repo@);
            assert forall|other: Seq<char>| #[trigger]
                self.residents().repo_total(other) == roomy.repo_total(other) + (if other
                    == repo@ {
                    size_bytes as nat
                } else {
                    0
                }) by {
                lemma_push_bytes(roomy.windows, e, other);
            }
        }
    }

    /// The cached tree, if resident; a miss is no error. A hit counts
    /// as an access at the current clock value, and the clock moves on.
    pub fn get_tree(
        &mut self,
        repo_path: &str,
        tree_id: &str,
    ) -> (r: Option<&Tree>)
        ensures
            match r {
                Some(v) => lookup(
                    old(self).tree_cache@,
                    repo_path@,
                    tree_key(tree_id@),
                ) == Some(*v),
                None => lookup(
                    old(self).tree_cache@,
                    repo_path@,
                    tree_key(tree_id@),
                ) is None,
            },
            final(self).residents() == (Residents {
                trees: accessed(
                    old(self).tree_cache@,
                    repo_path@,
                    tree_key(tree_id@),
                    old(self).clock,
                ),
                ..old(self).residents()
            }),
            final(self).clock == next_tick(old(self).clock),
            final(self).policy == old(self).policy,
    {
        let repo = String::from_str(repo_path);
        let key = make_key(tree_id, None, None, 0, 0);
        let now = self.tick();
        self.tree_cache.trees.fetch(&repo, &key, now)
    }

    /// Store the tree with its declared size. The call always
    /// succeeds. A resident entry with the same key gives way; a value larger
    /// than a bound of the policy is not taken in; else entries are evicted in
    /// the order of the policy until the value fits under both bounds.
    pub fn put_tree(
        &mut self,
        repo_path: &str,
        tree_id: &str,
        tree: Tree,
        size_bytes: u64,
    )
        ensures
            final(self).residents() == old(self).residents().with_tree(
                old(self).policy,
                fresh(
                    repo_path@,
                    tree_key(tree_id@),
                    size_bytes,
                    old(self).clock,
                    tree,
                ),
            ),
            final(self).clock == next_tick(old(self).clock),
            final(self).policy == old(self).policy,
            old(self).wf() ==> final(self).wf(),
            old(self).within_budget() ==> final(self).within_budget(),
            old(self).policy.admits(size_bytes) ==> final(self).residents().within_for(
                old(self).policy,
                repo_path@,
            ),
    {
        let repo = String::from_str(repo_path);
        let key = make_key(tree_id, None, None, 0, 0);
        let now = self.tick();
        self.tree_cache.trees.discard(&repo, &key);
        proof {
            old(self).residents().lemma_put(
                old(self).policy,
                CacheKind::Tree,
                repo@,
                key@,
                size_bytes,
            );
        }
        if size_bytes > self.policy.max_per_repo_bytes || size_bytes
            > self.policy.max_total_bytes {
            return ;
        }
        self.make_room(&repo, size_bytes);
        self.tree_cache.trees.insert(make_slot(&repo, key, size_bytes, now, tree));
        proof {
            let roomy = old(self).residents().cleared(CacheKind::Tree, repo@, key@).make_room(
                old(self).policy,
                repo@,
                size_bytes,
            );
            let e = fresh(repo@, key@, size_bytes, now, tree);
            lemma_push_bytes(roomy.trees, e, repo@);
            assert forall|other: Seq<char>| #[trigger]
                self.residents().repo_total(other) == roomy.repo_total(other) + (if other
                    == repo@ {
                    size_bytes as nat
                } else {
                    0
                }) by {
                lemma_push_bytes(roomy.trees, e, other);
            }
        }
    }

    /// The cached diff summary, if resident; a miss is no error. A hit counts
    /// as an access at the current clock value, and the clock moves on.
    pub fn get_diff_summary(
        &mut self,
        repo_path: &str,
        from_commit: &str,
        to_commit: &str,
    ) -> (r: Option<&DiffSummary>)
        ensures
            match r {
                Some(v) => lookup(
                    old(self).diff_cache.summaries(),
                    repo_path@,
                    diff_key(from_commit@, to_commit@),
                ) == Some(*v),
                None => lookup(
                    old(self).diff_cache.summaries(),
                    repo_path@,
                    diff_key(from_commit@, to_commit@),
                ) is None,
            },
            final(self).residents() == (Residents {
                summaries: accessed(
                    old(self).diff_cache.summaries(),
                    repo_path@,
                    diff_key(from_commit@, to_commit@),
                    old(self).clock,
                ),
                ..old(self).residents()
            }),
            final(self).clock == next_tick(old(self).clock),
            final(self).policy == old(self).policy,
    {
        let repo = String::from_str(repo_path);
        let key = make_key(from_commit, Some(to_commit), None, 0, 0);
        let now = self.tick();
        self.diff_cache.diff_summaries.fetch(&repo, &key, now)
    }

    /// Store the diff summary with its declared size. The call always
    /// succeeds. A resident entry with the same key gives way; a value larger
    /// than a bound of the policy is not taken in; else entries are evicted in
    /// the order of the policy until the value fits under both bounds.
    pub fn put_diff_summary(
        &mut self,
        repo_path: &str,
        from_commit: &str,
        to_commit: &str,
        summary: DiffSummary,
        size_bytes: u64,
    )
        ensures
            final(self).residents() == old(self).residents().with_diff_summary(
                old(self).policy,
                fresh(
                    repo_path@,
                    diff_key(from_commit@, to_commit@),
                    size_bytes,
                    old(self).clock,
                    summary,
                ),
            ),
            final(self).clock == next_tick(old(self).clock),
            final(self).policy == old(self).policy,
            old(self).wf() ==> final(self).wf(),
            old(self).within_budget() ==> final(self).within_budget(),
            old(self).policy.admits(size_bytes) ==> final(self).residents().within_for(
                old(self).policy,
                repo_path@,
            ),
    {
        let repo = String::from_str(repo_path);
        let key = make_key(from_commit, Some(to_commit), None, 0, 0);
        let now = self.tick();
        self.diff_cache.diff_summaries.discard(&repo, &key);
        proof {
            old(self).residents().lemma_put(
                old(self).policy,
                CacheKind::DiffSummary,
                repo@,
                key@,
                size_bytes,
            );
        }
        if size_bytes > self.policy.max_per_repo_bytes || size_bytes
            > self.policy.max_total_bytes {
            return ;
        }
        self.make_room(&repo, size_bytes);
        self.diff_cache.diff_summaries.insert(make_slot(&repo, key, size_bytes, now, summary));
        proof {
            let roomy = old(self).residents().cleared(CacheKind::DiffSummary, repo@, key@).make_room(
                old(self).policy,
                repo@,
                size_bytes,
            );
            let e = fresh(repo@, key@, size_bytes, now, summary);
            lemma_push_bytes(roomy.summaries, e, repo@);
            assert forall|other: Seq<char>| #[trigger]
                self.residents().repo_total(other) == roomy.repo_total(other) + (if other
                    == repo@ {
                    size_bytes as nat
                } else {
                    0
                }) by {
                lemma_push_bytes(roomy.summaries, e, other);
            }
        }
    }

    /// The cached diff chunks, if resident; a miss is no error. A hit counts
    /// as an access at the current clock value, and the clock moves on.
    pub fn get_diff_chunks(
        &mut self,
        repo_path: &str,
        from_commit: &str,
        to_commit: &str,
        file_path: &str,
    ) -> (r: Option<&[DiffChunk]>)
        ensures
            match r {
                Some(v) => lookup(
                    old(self).diff_cache.chunks(),
                    repo_path@,
                    chunks_key(from_commit@, to_commit@, file_path@),
                ) matches Some(held) && held@ == v@,
                None => lookup(
                    old(self).diff_cache.chunks(),
                    repo_path@,
                    chunks_key(from_commit@, to_commit@, file_path@),
                ) is None,
            },
            final(self).residents() == (Residents {
                chunks: accessed(
                    old(self).diff_cache.chunks(),
                    repo_path@,
                    chunks_key(from_commit@, to_commit@, file_path@),
                    old(self).clock,
                ),
                ..old(self).residents()
            }),
            final(self).clock == next_tick(old(self).clock),
            final(self).policy == old(self).policy,
    {
        let repo = String::from_str(repo_path);
        let key = make_key(from_commit, Some(to_commit), Some(file_path), 0, 0);
        let now = self.tick();
        match self.diff_cache.diff_chunks.fetch(&repo, &key, now) {
            Some(v) => Some(v.as_slice()),
            None => None,
        }
    }

    /// Store the diff chunks with its declared size. The call always
    /// succeeds. A resident entry with the same key gives way; a value larger
    /// than a bound of the policy is not taken in; else entries are evicted in
    /// the order of the policy until the value fits under both bounds.
    pub fn put_diff_chunks(
        &mut self,
        repo_path: &str,
        from_commit: &str,
        to_commit: &str,
        file_path: &str,
        chunks: Vec<DiffChunk>,
        size_bytes: u64,
    )
        ensures
            final(self).residents() == old(self).residents().with_diff_chunks(
                old(self).policy,
                fresh(
                    repo_path@,
                    chunks_key(from_commit@, to_commit@, file_path@),
                    size_bytes,
                    old(self).clock,
                    chunks,
                ),
            ),
            final(self).clock == next_tick(old(self).clock),
            final(self).policy == old(self).policy,
            old(self).wf() ==> final(self).wf(),
            old(self).within_budget() ==> final(self).within_budget(),
            old(self).policy.admits(size_bytes) ==> final(self).residents().within_for(
                old(self).policy,
                repo_path@,
            ),
    {
        let repo = String::from_str(repo_path);
        let key = make_key(from_commit, Some(to_commit), Some(file_path), 0, 0);
        let now = self.tick();
        self.diff_cache.diff_chunks.discard(&repo, &key);
        proof {
            old(self).residents().lemma_put(
                old(self).policy,
                CacheKind::DiffChunks,
                repo@,
                key@,
                size_bytes,
            );
        }
        if size_bytes > self.policy.max_per_repo_bytes || size_bytes
            > self.policy.max_total_bytes {
            return ;
        }
        self.make_room(&repo, size_bytes);
        self.diff_cache.diff_chunks.insert(make_slot(&repo, key, size_bytes, now, chunks));
        proof {
            let roomy = old(self).residents().cleared(CacheKind::DiffChunks, repo@, key@).make_room(
                old(self).policy,
                repo@,
                size_bytes,
            );
            let e = fresh(repo@, key@, size_bytes, now, chunks);
            lemma_push_bytes(roomy.chunks, e, repo@);
            assert forall|other: Seq<char>| #[trigger]
                self.residents().repo_total(other) == roomy.repo_total(other) + (if other
                    == repo@ {
                    size_bytes as nat
                } else {
                    0
                }) by {
                lemma_push_bytes(roomy.chunks, e, other);
            }
        }
    }

    /// The cached blame lines, if resident; a miss is no error. A hit counts
    /// as an access at the current clock value, and the clock moves on.
    pub fn get_blame_lines(
        &mut self,
        repo_path: &str,
        commit_id: &str,
        file_path: &str,
        start_line: usize,
        end_line: usize,
    ) -> (r: Option<&[BlameLine]>)
        ensures
            match r {
                Some(v) => lookup(
                    old(self).blame_cache@,
                    repo_path@,
                    blame_key(commit_id@, file_path@, start_line, end_line),
                ) matches Some(held) && held@ == v@,
                None => lookup(
                    old(self).blame_cache@,
                    repo_path@,
                    blame_key(commit_id@, file_path@, start_line, end_line),
                ) is None,
            },
            final(self).residents() == (Residents {
                blames: accessed(
                    old(self).blame_cache@,
                    repo_path@,
                    blame_key(commit_id@, file_path@, start_line, end_line),
                    old(self).clock,
                ),
                ..old(self).residents()
            }),
            final(self).clock == next_tick(old(self).clock),
            final(self).policy == old(self).policy,
    {
        let repo = String::from_str(repo_path);
        let key = make_key(commit_id, Some(file_path), None, start_line as u64, end_line as u64);
        let now = self.tick();
        match self.blame_cache.blame_chunks.fetch(&repo, &key, now) {
            Some(v) => Some(v.as_slice()),
            None => None,
        }
    }

    /// Store the blame lines with its declared size. The call always
    /// succeeds. A resident entry with the same key gives way; a value larger
    /// than a bound of the policy is not taken in; else entries are evicted in
    /// the order of the policy until the value fits under both bounds.
    pub fn put_blame_lines(
        &mut self,
        repo_path: &str,
        commit_id: &str,
        file_path: &str,
        start_line: usize,
        end_line: usize,
        lines: Vec<BlameLine>,
        size_bytes: u64,
    )
        ensures
            final(self).residents() == old(self).residents().with_blame_lines(
                old(self).policy,
                fresh(
                    repo_path@,
                    blame_key(commit_id@, file_path@, start_line, end_line),
                    size_bytes,
                    old(self).clock,
                    lines,
                ),
            ),
            final(self).clock == next_tick(old(self).clock),
            final(self).policy == old(self).policy,
            old(self).wf() ==> final(self).wf(),
            old(self).within_budget() ==> final(self).within_budget(),
            old(self).policy.admits(size_bytes) ==> final(self).residents().within_for(
                old(self).policy,
                repo_path@,
            ),
    {
        let repo = String::from_str(repo_path);
        let key = make_key(commit_id, Some(file_path), None, start_line as u64, end_line as u64);
        let now = self.tick();
        self.blame_cache.blame_chunks.discard(&repo, &key);
        proof {
            old(self).residents().lemma_put(
                old(self).policy,
                CacheKind::Blame,
                repo@,
                key@,
                size_bytes,
            );
        }
        if size_bytes > self.policy.max_per_repo_bytes || size_bytes
            > self.policy.max_total_bytes {
            return ;
        }
        self.make_room(&repo, size_bytes);
        self.blame_cache.blame_chunks.insert(make_slot(&repo, key, size_bytes, now, lines));
        proof {
            let roomy = old(self).residents().cleared(CacheKind::Blame, repo@, key@).make_room(
                old(self).policy,
                repo@,
                size_bytes,
            );
            let e = fresh(repo@, key@, size_bytes, now, lines);
            lemma_push_bytes(roomy.blames, e, repo@);
            assert forall|other: Seq<char>| #[trigger]
                self.residents().repo_total(other) == roomy.repo_total(other) + (if other
                    == repo@ {
                    size_bytes as nat
                } else {
                    0
                }) by {
                lemma_push_bytes(roomy.blames, e, other);
            }
        }
    }

    /// Drop what may have gone stale when a ref, HEAD, the index or the
    /// working tree of the repository at `repo_path` changed: its
    /// commit-graph windows, diff results and blame results. Trees are keyed
    /// by content and stay; so does everything of other repositories.
    pub fn invalidate(&mut self, repo_path: &str)
        ensures
            final(self).residents() == old(self).residents().invalidated(repo_path@),
            final(self).clock == old(self).clock,
            final(self).policy == old(self).policy,
            old(self).wf() ==> final(self).wf(),
            old(self).within_budget() ==> final(self).within_budget(),
    {
        let repo = String::from_str(repo_path);
        self.commit_graph.windows.purge_repo(&repo);
        self.diff_cache.diff_summaries.purge_repo(&repo);
        self.diff_cache.diff_chunks.purge_repo(&repo);
        self.blame_cache.blame_chunks.purge_repo(&repo);
        proof {
            old(self).residents().lemma_invalidated(repo@, old(self).policy);
        }
    }

    /// Take in an event of the change stream: a change of HEAD, the index,
    /// the working tree or the refs invalidates the repository it names; the
    /// other events leave the caches alone.
    pub fn apply_event(&mut self, event: &Event)
        ensures
            final(self).residents() == (match stale_repo(*event) {
                Some(repo) => old(self).residents().invalidated(repo),
                None => old(self).residents(),
            }),
            final(self).clock == old(self).clock,
            final(self).policy == old(self).policy,
            old(self).wf() ==> final(self).wf(),
            old(self).within_budget() ==> final(self).within_budget(),
    {
        match event {
            Event::HeadChanged(e) => self.invalidate(e.repo_path.as_str()),
            Event::IndexChanged(e) => self.invalidate(e.repo_path.as_str()),
            Event::WorkdirChanged(e) => self.invalidate(e.repo_path.as_str()),
            Event::RefsChanged(e) => self.invalidate(e.repo_path.as_str()),
            Event::RepoOpened(_) => {},
            Event::RepoClosed(_) => {},
            Event::OperationProgress(_) => {},
        }
    }
}

/// The repository whose position-addressed entries an event makes stale.
pub open spec fn stale_repo(event: Event) -> Option<Seq<char>> {
    match event {
        Event::HeadChanged(e) => Some(e.repo_path@),
        Event::IndexChanged(e) => Some(e.repo_path@),
        Event::WorkdirChanged(e) => Some(e.repo_path@),
        Event::RefsChanged(e) => Some(e.repo_path@),
        Event::RepoOpened(_) => None,
        Event::RepoClosed(_) => None,
        Event::OperationProgress(_) => None,
    }
}

/// `n`, or the largest 128-bit number where `n` is larger.
pub open spec fn capped(n: nat) -> u128 {
    if n <= u128::MAX {
        n as u128
    } else {
        u128::MAX
    }
}

/// The sum of two capped numbers, capped.
fn add_capped(a: u128, b: u128) -> (r: u128)
    ensures
        r == capped((a + b) as nat),
        forall|x: nat, y: nat|
            #![trigger capped(x), capped(y)]
            a == capped(x) && b == capped(y) ==> r == capped(x + y),
{
    if a > u128::MAX - b {
        u128::MAX
    } else {
        a + b
    }
}

} // verus!
