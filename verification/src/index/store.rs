//! One bounded key-value store: slots with the bookkeeping that eviction
//! goes by.

use vstd::prelude::*;

verus! {

/// How entries are chosen for eviction.
#[derive(Debug, Clone, Copy, PartialEq, Eq, Structural)]
pub enum EvictionStrategy {
    /// Least Recently Used
    Lru,
    /// Least Frequently Used
    Lfu,
}

/// Identity of an entry within its repository: up to three names and two
/// numbers. Each cache fills the parts that its key has and leaves the rest
/// empty or zero.
#[derive(Debug, Clone)]
pub struct EntryKey {
    pub first: String,
    pub second: String,
    pub third: String,
    pub low: u64,
    pub high: u64,
}

/// An entry key as plain values.
pub struct KeyModel {
    pub first: Seq<char>,
    pub second: Seq<char>,
    pub third: Seq<char>,
    pub low: u64,
    pub high: u64,
}

impl View for EntryKey {
    type V = KeyModel;

    open spec fn view(&self) -> KeyModel {
        KeyModel {
            first: self.first@,
            second: self.second@,
            third: self.third@,
            low: self.low,
            high: self.high,
        }
    }
}

impl EntryKey {
    /// Whether two keys name the same entry.
    pub fn same(&self, other: &EntryKey) -> (b: bool)
        ensures
            b == (self@ == other@),
    {
        self.low == other.low && self.high == other.high && self.first == other.first
            && self.second == other.second && self.third == other.third
    }
}

/// One resident entry with its bookkeeping.
#[derive(Debug)]
pub struct Slot<V> {
    /// Repository that the entry is accounted to
    pub repo: String,
    /// Identity within the repository
    pub key: EntryKey,
    /// Declared size in bytes
    pub bytes: u64,
    /// Time of the last access
    pub last_access: u64,
    /// Number of accesses since insertion
    pub hits: u64,
    /// Time of insertion
    pub inserted: u64,
    /// The cached value
    pub value: V,
}

/// A resident entry as plain values: what a slot holds, with texts in place
/// of strings.
pub struct Entry<V> {
    pub repo: Seq<char>,
    pub key: KeyModel,
    pub bytes: u64,
    pub last_access: u64,
    pub hits: u64,
    pub inserted: u64,
    pub value: V,
}

impl<V> View for Slot<V> {
    type V = Entry<V>;

    open spec fn view(&self) -> Entry<V> {
        Entry {
            repo: self.repo@,
            key: self.key@,
            bytes: self.bytes,
            last_access: self.last_access,
            hits: self.hits,
            inserted: self.inserted,
            value: self.value,
        }
    }
}

/// The entries that a list of slots holds.
pub open spec fn entries<V>(slots: Seq<Slot<V>>) -> Seq<Entry<V>> {
    slots.map_values(|s: Slot<V>| s@)
}

impl<V> Entry<V> {
    /// Whether this is the entry `key` of `repo`.
    pub open spec fn is(self, repo: Seq<char>, key: KeyModel) -> bool {
        self.repo == repo && self.key == key
    }

    /// What eviction orders entries by: under `Lru` the time of the last
    /// access, under `Lfu` the number of accesses; ties go by insertion time.
    pub open spec fn rank(self, strategy: EvictionStrategy) -> (u64, u64) {
        match strategy {
            EvictionStrategy::Lru => (self.last_access, self.inserted),
            EvictionStrategy::Lfu => (self.hits, self.inserted),
        }
    }

    /// Whether eviction within `scope` may take this slot: any slot when the
    /// scope is everything, else the slots of that repository.
    pub open spec fn in_scope(self, scope: Option<Seq<char>>) -> bool {
        match scope {
            None => true,
            Some(repo) => self.repo == repo,
        }
    }

    /// This slot after an access at time `now`.
    pub open spec fn touched(self, now: u64) -> Entry<V> {
        Entry {
            last_access: now,
            hits: if self.hits < u64::MAX {
                (self.hits + 1) as u64
            } else {
                self.hits
            },
            ..self
        }
    }
}

/// Whether rank `a` goes strictly before rank `b`.
pub open spec fn before(a: (u64, u64), b: (u64, u64)) -> bool {
    a.0 < b.0 || (a.0 == b.0 && a.1 < b.1)
}

/// No two entries are the same entry of the same repository.
pub open spec fn distinct<V>(slots: Seq<Entry<V>>) -> bool {
    forall|i: int, j: int|
        0 <= i < j < slots.len() ==> !(#[trigger] slots[i]).is(
            (#[trigger] slots[j]).repo,
            slots[j].key,
        )
}

/// Whether some slot holds the entry `key` of `repo`.
pub open spec fn holds<V>(slots: Seq<Entry<V>>, repo: Seq<char>, key: KeyModel) -> bool {
    exists|i: int| 0 <= i < slots.len() && (#[trigger] slots[i]).is(repo, key)
}

/// Index of the first of the first `n` slots that holds the entry `key` of
/// `repo`.
pub open spec fn first_in<V>(slots: Seq<Entry<V>>, repo: Seq<char>, key: KeyModel, n: int) -> Option<
    int,
>
    decreases n,
{
    if n <= 0 {
        None
    } else {
        match first_in(slots, repo, key, n - 1) {
            Some(j) => Some(j),
            None => if slots[n - 1].is(repo, key) {
                Some(n - 1)
            } else {
                None
            },
        }
    }
}

/// The cached value of the entry `key` of `repo`, if it is resident.
pub open spec fn lookup<V>(slots: Seq<Entry<V>>, repo: Seq<char>, key: KeyModel) -> Option<V> {
    match first_in(slots, repo, key, slots.len() as int) {
        Some(i) => Some(slots[i].value),
        None => None,
    }
}

/// Which entries a removal takes: all of one repository, or the one entry
/// with a given key in it.
pub enum Select {
    Repo(Seq<char>),
    Entry(Seq<char>, KeyModel),
}

impl Select {
    /// Whether the removal takes `e`.
    pub open spec fn takes<V>(self, e: Entry<V>) -> bool {
        match self {
            Select::Repo(repo) => e.repo == repo,
            Select::Entry(repo, key) => e.is(repo, key),
        }
    }
}

/// The slots that a removal leaves, in their order.
pub open spec fn without<V>(slots: Seq<Entry<V>>, select: Select) -> Seq<Entry<V>>
    decreases slots.len(),
{
    if slots.len() == 0 {
        Seq::empty()
    } else if select.takes(slots.last()) {
        without(slots.drop_last(), select)
    } else {
        without(slots.drop_last(), select).push(slots.last())
    }
}

/// The slots without the entry `key` of `repo`.
pub open spec fn dropped<V>(slots: Seq<Entry<V>>, repo: Seq<char>, key: KeyModel) -> Seq<Entry<V>> {
    without(slots, Select::Entry(repo, key))
}

/// The slots that are not accounted to `repo`, in their order.
pub open spec fn purged<V>(slots: Seq<Entry<V>>, repo: Seq<char>) -> Seq<Entry<V>> {
    without(slots, Select::Repo(repo))
}

/// The slots after an access to the entry `key` of `repo` at time `now`;
/// nothing changes when the entry is not resident.
pub open spec fn accessed<V>(slots: Seq<Entry<V>>, repo: Seq<char>, key: KeyModel, now: u64) -> Seq<
    Entry<V>,
> {
    match first_in(slots, repo, key, slots.len() as int) {
        Some(i) => slots.update(i, slots[i].touched(now)),
        None => slots,
    }
}

/// `first_in` finds an entry exactly when one is held, and finds the first.
pub proof fn lemma_first_in<V>(slots: Seq<Entry<V>>, repo: Seq<char>, key: KeyModel, n: int)
    requires
        0 <= n <= slots.len(),
    ensures
        match first_in(slots, repo, key, n) {
            Some(j) => 0 <= j < n && slots[j].is(repo, key) && forall|i: int|
                0 <= i < j ==> !(#[trigger] slots[i]).is(repo, key),
            None => forall|i: int| 0 <= i < n ==> !(#[trigger] slots[i]).is(repo, key),
        },
        n == slots.len() ==> (first_in(slots, repo, key, n) is Some <==> holds(slots, repo, key)),
    decreases n,
{
    if n > 0 {
        lemma_first_in(slots, repo, key, n - 1);
    }
}

/// Once an entry is found among the first `n` slots, looking further finds
/// the same one.
pub proof fn lemma_first_in_stable<V>(
    slots: Seq<Entry<V>>,
    repo: Seq<char>,
    key: KeyModel,
    n: int,
    m: int,
)
    requires
        0 <= n <= m,
        first_in(slots, repo, key, n) is Some,
    ensures
        first_in(slots, repo, key, m) == first_in(slots, repo, key, n),
    decreases m - n,
{
    if n < m {
        lemma_first_in_stable(slots, repo, key, n, m - 1);
    }
}

/// Sum of the declared sizes of all slots.
pub open spec fn sum_bytes<V>(slots: Seq<Entry<V>>) -> nat
    decreases slots.len(),
{
    if slots.len() == 0 {
        0
    } else {
        sum_bytes(slots.drop_last()) + slots.last().bytes as nat
    }
}

/// Sum of the declared sizes of the slots that are accounted to `repo`.
pub open spec fn repo_bytes<V>(slots: Seq<Entry<V>>, repo: Seq<char>) -> nat
    decreases slots.len(),
{
    if slots.len() == 0 {
        0
    } else {
        repo_bytes(slots.drop_last(), repo) + if slots.last().repo == repo {
            slots.last().bytes as nat
        } else {
            0
        }
    }
}

/// The slot that eviction takes among the first `n` slots: the first one in
/// scope that no other slot in scope goes strictly before. `None` when no
/// slot is in scope.
pub open spec fn victim_in<V>(
    slots: Seq<Entry<V>>,
    strategy: EvictionStrategy,
    scope: Option<Seq<char>>,
    n: int,
) -> Option<int>
    decreases n,
{
    if n <= 0 {
        None
    } else {
        let prev = victim_in(slots, strategy, scope, n - 1);
        if !slots[n - 1].in_scope(scope) {
            prev
        } else {
            match prev {
                None => Some(n - 1),
                Some(j) => if before(slots[n - 1].rank(strategy), slots[j].rank(strategy)) {
                    Some(n - 1)
                } else {
                    prev
                },
            }
        }
    }
}

/// The victim is a slot in scope, and no slot in scope goes strictly before
/// it; there is none only when no slot is in scope.
pub proof fn lemma_victim_in<V>(
    slots: Seq<Entry<V>>,
    strategy: EvictionStrategy,
    scope: Option<Seq<char>>,
    n: int,
)
    requires
        0 <= n <= slots.len(),
    ensures
        match victim_in(slots, strategy, scope, n) {
            Some(j) => 0 <= j < n && slots[j].in_scope(scope) && forall|i: int|
                0 <= i < n && (#[trigger] slots[i]).in_scope(scope) ==> !before(
                    slots[i].rank(strategy),
                    slots[j].rank(strategy),
                ),
            None => forall|i: int| 0 <= i < n ==> !(#[trigger] slots[i]).in_scope(scope),
        },
    decreases n,
{
    if n > 0 {
        lemma_victim_in(slots, strategy, scope, n - 1);
    }
}

/// The sizes add up over a removal.
pub proof fn lemma_remove_bytes<V>(slots: Seq<Entry<V>>, i: int, repo: Seq<char>)
    requires
        0 <= i < slots.len(),
    ensures
        sum_bytes(slots.remove(i)) + slots[i].bytes == sum_bytes(slots),
        repo_bytes(slots.remove(i), repo) + (if slots[i].repo == repo {
            slots[i].bytes as nat
        } else {
            0
        }) == repo_bytes(slots, repo),
    decreases slots.len(),
{
    if i == slots.len() - 1 {
        assert(slots.remove(i) =~= slots.drop_last());
    } else {
        assert(slots.remove(i).drop_last() =~= slots.drop_last().remove(i));
        assert(slots.remove(i).last() == slots.last());
        lemma_remove_bytes(slots.drop_last(), i, repo);
    }
}

/// The sizes add up over an insertion at the end.
pub proof fn lemma_push_bytes<V>(slots: Seq<Entry<V>>, slot: Entry<V>, repo: Seq<char>)
    ensures
        sum_bytes(slots.push(slot)) == sum_bytes(slots) + slot.bytes,
        repo_bytes(slots.push(slot), repo) == repo_bytes(slots, repo) + (if slot.repo == repo {
            slot.bytes as nat
        } else {
            0
        }),
{
    assert(slots.push(slot).drop_last() =~= slots);
}

/// What the slots of one repository hold never exceeds what all slots hold,
/// and a repository with bytes in residence has a slot.
pub proof fn lemma_repo_bytes_bounds<V>(slots: Seq<Entry<V>>, repo: Seq<char>)
    ensures
        repo_bytes(slots, repo) <= sum_bytes(slots),
        sum_bytes(slots) <= slots.len() * u64::MAX,
        repo_bytes(slots, repo) > 0 ==> exists|i: int|
            0 <= i < slots.len() && (#[trigger] slots[i]).repo == repo,
        sum_bytes(slots) > 0 ==> slots.len() > 0,
    decreases slots.len(),
{
    if slots.len() > 0 {
        lemma_repo_bytes_bounds(slots.drop_last(), repo);
        if repo_bytes(slots, repo) > 0 {
            if slots.last().repo == repo {
                assert(slots[slots.len() - 1].repo == repo);
            } else {
                let i = choose|i: int|
                    0 <= i < slots.drop_last().len() && (#[trigger] slots.drop_last()[i]).repo
                        == repo;
                assert(slots[i].repo == repo);
            }
        }
        assert(sum_bytes(slots) <= slots.len() * u64::MAX) by (nonlinear_arith)
            requires
                sum_bytes(slots) <= sum_bytes(slots.drop_last()) + u64::MAX,
                sum_bytes(slots.drop_last()) <= (slots.len() - 1) * u64::MAX,
        ;
    }
}

/// A store of slots in which no entry occurs twice.
#[derive(Debug)]
pub struct Store<V> {
    slots: Vec<Slot<V>>,
}

impl<V> View for Store<V> {
    type V = Seq<Entry<V>>;

    closed spec fn view(&self) -> Seq<Entry<V>> {
        entries(self.slots@)
    }
}

impl<V> Store<V> {
    /// No entry occurs twice.
    pub open spec fn wf(&self) -> bool {
        distinct(self@)
    }

    /// The empty store.
    pub fn new() -> (s: Store<V>)
        ensures
            s@ == Seq::<Entry<V>>::empty(),
            s.wf(),
    {
        let s = Store { slots: Vec::new() };
        assert(s@ =~= Seq::<Entry<V>>::empty());
        s
    }

    /// Where the entry `key` of `repo` resides, if it does.
    pub(crate) fn position(&self, repo: &String, key: &EntryKey) -> (r: Option<usize>)
        ensures
            match r {
                Some(i) => first_in(self@, repo@, key@, self@.len() as int) == Some(i as int) && i
                    < self@.len(),
                None => first_in(self@, repo@, key@, self@.len() as int) is None,
            },
    {
        let mut i: usize = 0;
        while i < self.slots.len()
            invariant
                i <= self.slots.len(),
                self@.len() == self.slots.len(),
                first_in(self@, repo@, key@, i as int) is None,
            decreases self.slots.len() - i,
        {
            assert(self@[i as int] == self.slots@[i as int]@);
            if self.slots[i].repo == *repo && self.slots[i].key.same(key) {
                proof {
                    lemma_first_in_stable(self@, repo@, key@, i + 1, self@.len() as int);
                }
                return Some(i);
            }
            i += 1;
        }
        None
    }

    /// The cached value of the entry `key` of `repo`, if it is resident.
    /// Looking does not count as an access.
    pub fn peek(&self, repo: &String, key: &EntryKey) -> (r: Option<&V>)
        ensures
            match r {
                Some(v) => lookup(self@, repo@, key@) == Some(*v),
                None => lookup(self@, repo@, key@) is None,
            },
    {
        match self.position(repo, key) {
            Some(i) => {
                assert(self@[i as int] == self.slots@[i as int]@);
                Some(&self.slots[i].value)
            },
            None => None,
        }
    }

    /// The cached value of the entry `key` of `repo`, if it is resident; the
    /// access is recorded at time `now`.
    pub fn fetch(&mut self, repo: &String, key: &EntryKey, now: u64) -> (r: Option<&V>)
        ensures
            final(self)@ == accessed(old(self)@, repo@, key@, now),
            match r {
                Some(v) => lookup(old(self)@, repo@, key@) == Some(*v),
                None => lookup(old(self)@, repo@, key@) is None,
            },
            old(self).wf() ==> final(self).wf(),
    {
        match self.position(repo, key) {
            Some(i) => {
                self.touch(i, now);
                assert(self@.len() == self.slots@.len());
                assert(self@[i as int] == self.slots@[i as int]@);
                Some(&self.slots[i].value)
            },
            None => None,
        }
    }

    /// Drop the entry `key` of `repo`, if it is resident.
    pub fn discard(&mut self, repo: &String, key: &EntryKey)
        ensures
            final(self)@ == dropped(old(self)@, repo@, key@),
            !holds(final(self)@, repo@, key@),
            old(self).wf() ==> final(self).wf(),
    {
        self.remove_all(repo, Some(key));
        proof {
            lemma_without(old(self)@, Select::Entry(repo@, key@));
        }
    }

    /// Record an access to the slot at `index` at time `now`.
    pub(crate) fn touch(&mut self, index: usize, now: u64)
        requires
            index < old(self)@.len(),
        ensures
            final(self)@ == old(self)@.update(index as int, old(self)@[index as int].touched(now)),
            old(self).wf() ==> final(self).wf(),
    {
        let ghost before = self.slots@;
        let slot = &mut self.slots[index];
        slot.last_access = now;
        if slot.hits < u64::MAX {
            slot.hits = slot.hits + 1;
        }
        assert(self@ =~= entries(before).update(
            index as int,
            entries(before)[index as int].touched(now),
        ));
        proof {
            let after = self@;
            let prior = entries(before);
            if distinct(prior) {
                assert forall|i: int, j: int| 0 <= i < j < after.len() implies !(
                #[trigger] after[i]).is((#[trigger] after[j]).repo, after[j].key) by {
                    assert(after[i].repo == prior[i].repo && after[i].key == prior[i].key);
                    assert(after[j].repo == prior[j].repo && after[j].key == prior[j].key);
                }
            }
        }
    }

    /// Add an entry at the end.
    pub(crate) fn insert(&mut self, slot: Slot<V>)
        requires
            !holds(old(self)@, slot.repo@, slot.key@),
        ensures
            final(self)@ == old(self)@.push(slot@),
            old(self).wf() ==> final(self).wf(),
    {
        let ghost before = self.slots@;
        self.slots.push(slot);
        assert(self@ =~= entries(before).push(slot@));
        proof {
            let after = self@;
            let prior = entries(before);
            if distinct(prior) {
                assert forall|i: int, j: int| 0 <= i < j < after.len() implies !(
                #[trigger] after[i]).is((#[trigger] after[j]).repo, after[j].key) by {
                    assert(after[i] == prior[i]);
                    if j < prior.len() {
                        assert(after[j] == prior[j]);
                    }
                }
            }
        }
    }

    /// Take the slot at `index` out; the others keep their order.
    pub(crate) fn remove_at(&mut self, index: usize) -> (slot: Slot<V>)
        requires
            index < old(self)@.len(),
        ensures
            slot@ == old(self)@[index as int],
            final(self)@ == old(self)@.remove(index as int),
            old(self).wf() ==> final(self).wf(),
    {
        let ghost before = self.slots@;
        let slot = self.slots.remove(index);
        assert(self@ =~= entries(before).remove(index as int));
        proof {
            lemma_remove_distinct(entries(before), index as int);
        }
        slot
    }

    /// Sum of the declared sizes of all entries.
    pub fn total_bytes(&self) -> (n: u128)
        ensures
            n == sum_bytes(self@),
    {
        let mut n: u128 = 0;
        let mut i: usize = 0;
        while i < self.slots.len()
            invariant
                i <= self.slots.len(),
                self@.len() == self.slots.len(),
                n == sum_bytes(self@.take(i as int)),
                n <= i * u64::MAX,
            decreases self.slots.len() - i,
        {
            assert(self@.take(i + 1).drop_last() =~= self@.take(i as int));
            assert(self@[i as int] == self.slots@[i as int]@);
            n = n + self.slots[i].bytes as u128;
            i += 1;
        }
        assert(self@.take(i as int) =~= self@);
        n
    }

    /// Sum of the declared sizes of the entries that are accounted to `repo`.
    pub fn repo_bytes(&self, repo: &String) -> (n: u128)
        ensures
            n == repo_bytes(self@, repo@),
    {
        let mut n: u128 = 0;
        let mut i: usize = 0;
        while i < self.slots.len()
            invariant
                i <= self.slots.len(),
                self@.len() == self.slots.len(),
                n == repo_bytes(self@.take(i as int), repo@),
                n <= i * u64::MAX,
            decreases self.slots.len() - i,
        {
            assert(self@.take(i + 1).drop_last() =~= self@.take(i as int));
            assert(self@[i as int] == self.slots@[i as int]@);
            if self.slots[i].repo == *repo {
                n = n + self.slots[i].bytes as u128;
            }
            i += 1;
        }
        assert(self@.take(i as int) =~= self@);
        n
    }

    /// The entry that eviction within `scope` takes from this store: its
    /// index and its rank.
    pub(crate) fn victim(&self, strategy: EvictionStrategy, scope: Option<&String>) -> (r: Option<
        (usize, u64, u64),
    >)
        ensures
            match r {
                Some(v) => victim_in(self@, strategy, scope_of(scope), self@.len() as int) == Some(
                    v.0 as int,
                ) && v.0 < self@.len() && (v.1, v.2) == self@[v.0 as int].rank(strategy),
                None => victim_in(self@, strategy, scope_of(scope), self@.len() as int) is None,
            },
    {
        let mut best: Option<(usize, u64, u64)> = None;
        let mut i: usize = 0;
        while i < self.slots.len()
            invariant
                i <= self.slots.len(),
                self@.len() == self.slots.len(),
                match best {
                    Some(v) => victim_in(self@, strategy, scope_of(scope), i as int) == Some(
                        v.0 as int,
                    ) && v.0 < i && (v.1, v.2) == self@[v.0 as int].rank(strategy),
                    None => victim_in(self@, strategy, scope_of(scope), i as int) is None,
                },
            decreases self.slots.len() - i,
        {
            let slot = &self.slots[i];
            assert(self@[i as int] == slot@);
            let eligible = match scope {
                None => true,
                Some(repo) => slot.repo == *repo,
            };
            if eligible {
                let primary = match strategy {
                    EvictionStrategy::Lru => slot.last_access,
                    EvictionStrategy::Lfu => slot.hits,
                };
                let rank = (primary, slot.inserted);
                match best {
                    None => {
                        best = Some((i, rank.0, rank.1));
                    },
                    Some(v) => {
                        if goes_before(rank, (v.1, v.2)) {
                            best = Some((i, rank.0, rank.1));
                        }
                    },
                }
            }
            i += 1;
        }
        best
    }

    /// Drop every entry that is accounted to `repo`.
    pub fn purge_repo(&mut self, repo: &String)
        ensures
            final(self)@ == purged(old(self)@, repo@),
            old(self).wf() ==> final(self).wf(),
    {
        self.remove_all(repo, None);
        proof {
            lemma_without(old(self)@, Select::Repo(repo@));
        }
    }

    /// Drop the entries of `repo` that have the given key, or all of them
    /// where no key is given.
    fn remove_all(&mut self, repo: &String, key: Option<&EntryKey>)
        ensures
            final(self)@ == without(old(self)@, selection(repo, key)),
    {
        let ghost select = selection(repo, key);
        let ghost orig = self@;
        let ghost mut done: int = 0;
        let mut i: usize = 0;
        assert(orig.take(0) =~= Seq::<Entry<V>>::empty());
        assert(orig.skip(0) =~= orig);
        while i < self.slots.len()
            invariant
                0 <= done <= orig.len(),
                i <= self.slots.len(),
                self@.len() == self.slots.len(),
                select == selection(repo, key),
                i == without(orig.take(done), select).len(),
                self@ == without(orig.take(done), select) + orig.skip(done),
            decreases self.slots.len() - i,
        {
            assert(self@[i as int] == orig[done]);
            assert(self@[i as int] == self.slots@[i as int]@);
            assert(orig.take(done + 1).drop_last() =~= orig.take(done));
            assert(orig.take(done + 1).last() == orig[done]);
            let taken = self.slots[i].repo == *repo && match key {
                Some(k) => self.slots[i].key.same(k),
                None => true,
            };
            if taken {
                self.remove_at(i);
                assert(self@ =~= without(orig.take(done + 1), select) + orig.skip(done + 1));
            } else {
                assert(self@ =~= without(orig.take(done + 1), select) + orig.skip(done + 1));
                i += 1;
            }
            proof {
                done = done + 1;
            }
        }
        assert(orig.skip(done) =~= Seq::<Entry<V>>::empty()) by {
            assert(self@.len() == i + orig.skip(done).len());
        }
        assert(orig.take(done) =~= orig);
        assert(self@ =~= without(orig, select));
    }
}

/// What a removal for `repo` takes: the entry with `key`, or everything of
/// the repository where no key is given.
pub open spec fn selection(repo: &String, key: Option<&EntryKey>) -> Select {
    match key {
        Some(k) => Select::Entry(repo@, k@),
        None => Select::Repo(repo@),
    }
}

/// The scope that an optional repository name stands for.
pub open spec fn scope_of(scope: Option<&String>) -> Option<Seq<char>> {
    match scope {
        None => None,
        Some(repo) => Some(repo@),
    }
}

/// Whether rank `a` goes strictly before rank `b` in the eviction order.
pub fn goes_before(a: (u64, u64), b: (u64, u64)) -> (r: bool)
    ensures
        r == before(a, b),
{
    a.0 < b.0 || (a.0 == b.0 && a.1 < b.1)
}

/// Taking one entry out cannot make another occur twice.
pub proof fn lemma_remove_distinct<V>(slots: Seq<Entry<V>>, index: int)
    requires
        0 <= index < slots.len(),
    ensures
        distinct(slots) ==> distinct(slots.remove(index)),
{
    let after = slots.remove(index);
    if distinct(slots) {
        assert forall|i: int, j: int| 0 <= i < j < after.len() implies !(#[trigger] after[i]).is(
            (#[trigger] after[j]).repo,
            after[j].key,
        ) by {
            let a = if i < index {
                i
            } else {
                i + 1
            };
            let b = if j < index {
                j
            } else {
                j + 1
            };
            assert(after[i] == slots[a] && after[j] == slots[b]);
        }
    }
}

/// Once an entry is dropped it is gone, and dropping cannot make another
/// entry occur twice.
pub proof fn lemma_dropped_gone<V>(slots: Seq<Entry<V>>, repo: Seq<char>, key: KeyModel)
    ensures
        !holds(dropped(slots, repo, key), repo, key),
        distinct(slots) ==> distinct(dropped(slots, repo, key)),
{
    lemma_without(slots, Select::Entry(repo, key));
}

/// A removal never adds bytes anywhere.
pub proof fn lemma_without_bytes<V>(slots: Seq<Entry<V>>, select: Select, other: Seq<char>)
    ensures
        sum_bytes(without(slots, select)) <= sum_bytes(slots),
        repo_bytes(without(slots, select), other) <= repo_bytes(slots, other),
        select == Select::Repo(other) ==> repo_bytes(without(slots, select), other) == 0,
    decreases slots.len(),
{
    if slots.len() > 0 {
        lemma_without_bytes(slots.drop_last(), select, other);
        if !select.takes(slots.last()) {
            lemma_push_bytes(without(slots.drop_last(), select), slots.last(), other);
        }
    }
}

/// Dropping an entry never adds bytes anywhere.
pub proof fn lemma_dropped_bytes<V>(
    slots: Seq<Entry<V>>,
    repo: Seq<char>,
    key: KeyModel,
    other: Seq<char>,
)
    ensures
        sum_bytes(dropped(slots, repo, key)) <= sum_bytes(slots),
        repo_bytes(dropped(slots, repo, key), other) <= repo_bytes(slots, other),
{
    lemma_without_bytes(slots, Select::Entry(repo, key), other);
}

/// Taking an entry out brings no other entry into residence.
pub proof fn lemma_remove_keeps_absent<V>(
    slots: Seq<Entry<V>>,
    index: int,
    repo: Seq<char>,
    key: KeyModel,
)
    requires
        0 <= index < slots.len(),
        !holds(slots, repo, key),
    ensures
        !holds(slots.remove(index), repo, key),
{
    let after = slots.remove(index);
    assert forall|j: int| 0 <= j < after.len() implies !(#[trigger] after[j]).is(repo, key) by {
        if j < index {
            assert(after[j] == slots[j]);
        } else {
            assert(after[j] == slots[j + 1]);
        }
    }
}

/// An entry that comes last into a list that did not hold it is found
/// there with its value, and what is found for any other entry stays as it
/// was.
pub proof fn lemma_lookup_pushed<V>(
    slots: Seq<Entry<V>>,
    e: Entry<V>,
    repo: Seq<char>,
    key: KeyModel,
)
    requires
        !holds(slots, e.repo, e.key),
    ensures
        lookup(slots.push(e), e.repo, e.key) == Some(e.value),
        !e.is(repo, key) ==> lookup(slots.push(e), repo, key) == lookup(slots, repo, key),
{
    let after = slots.push(e);
    lemma_first_in(slots, e.repo, e.key, slots.len() as int);
    lemma_first_in_prefix(after, slots, e.repo, e.key, slots.len() as int);
    lemma_first_in_prefix(after, slots, repo, key, slots.len() as int);
    lemma_first_in(slots, repo, key, slots.len() as int);
}

/// Looking among the first `n` slots sees those slots only.
pub proof fn lemma_first_in_prefix<V>(
    a: Seq<Entry<V>>,
    b: Seq<Entry<V>>,
    repo: Seq<char>,
    key: KeyModel,
    n: int,
)
    requires
        0 <= n <= a.len(),
        n <= b.len(),
        forall|i: int| 0 <= i < n ==> a[i] == b[i],
    ensures
        first_in(a, repo, key, n) == first_in(b, repo, key, n),
    decreases n,
{
    if n > 0 {
        lemma_first_in_prefix(a, b, repo, key, n - 1);
    }
}

/// After a removal none of what it took is found, and what is found for
/// any other entry is what was found before.
pub proof fn lemma_without_lookup<V>(
    slots: Seq<Entry<V>>,
    select: Select,
    repo: Seq<char>,
    key: KeyModel,
)
    ensures
        (forall|e: Entry<V>| e.is(repo, key) ==> select.takes(e)) ==> lookup(
            without(slots, select),
            repo,
            key,
        ) is None,
        (forall|e: Entry<V>| e.is(repo, key) ==> !select.takes(e)) ==> lookup(
            without(slots, select),
            repo,
            key,
        ) == lookup(slots, repo, key),
    decreases slots.len(),
{
    let after = without(slots, select);
    lemma_without(slots, select);
    lemma_first_in(after, repo, key, after.len() as int);
    if forall|e: Entry<V>| e.is(repo, key) ==> select.takes(e) {
        assert forall|i: int| 0 <= i < after.len() implies !(#[trigger] after[i]).is(repo, key) by {
            assert(!select.takes(after[i]));
        }
    }
    if slots.len() > 0 && (forall|e: Entry<V>| e.is(repo, key) ==> !select.takes(e)) {
        let front = slots.drop_last();
        let kept = without(front, select);
        lemma_without_lookup(front, select, repo, key);
        lemma_first_in_prefix(slots, front, repo, key, front.len() as int);
        lemma_first_in(front, repo, key, front.len() as int);
        lemma_first_in(kept, repo, key, kept.len() as int);
        if !select.takes(slots.last()) {
            lemma_first_in_prefix(after, kept, repo, key, kept.len() as int);
        }
    }
}

/// After a purge nothing of the purged repository is found, and what is
/// found for any other repository is what was found before.
pub proof fn lemma_purged_lookup<V>(
    slots: Seq<Entry<V>>,
    repo: Seq<char>,
    other: Seq<char>,
    key: KeyModel,
)
    ensures
        lookup(purged(slots, repo), repo, key) is None,
        other != repo ==> lookup(purged(slots, repo), other, key) == lookup(slots, other, key),
{
    lemma_without_lookup(slots, Select::Repo(repo), repo, key);
    lemma_without_lookup(slots, Select::Repo(repo), other, key);
}

/// Dropping an entry leaves what is found for every other entry as it was.
pub proof fn lemma_dropped_lookup<V>(
    slots: Seq<Entry<V>>,
    repo: Seq<char>,
    key: KeyModel,
    other_repo: Seq<char>,
    other_key: KeyModel,
)
    requires
        other_repo != repo || other_key != key,
    ensures
        lookup(dropped(slots, repo, key), other_repo, other_key) == lookup(
            slots,
            other_repo,
            other_key,
        ),
{
    lemma_without_lookup(slots, Select::Entry(repo, key), other_repo, other_key);
}

/// Purging never adds bytes anywhere.
pub proof fn lemma_purged_bytes<V>(slots: Seq<Entry<V>>, repo: Seq<char>, other: Seq<char>)
    ensures
        sum_bytes(purged(slots, repo)) <= sum_bytes(slots),
        repo_bytes(purged(slots, repo), other) <= repo_bytes(slots, other),
        repo_bytes(purged(slots, repo), repo) == 0,
{
    lemma_without_bytes(slots, Select::Repo(repo), other);
    lemma_without_bytes(slots, Select::Repo(repo), repo);
}

/// A removal keeps entries in their order: none occurs twice afterwards
/// that did not before, every one left was there before, none that was
/// taken is left, and every one that was not taken is left.
pub proof fn lemma_without<V>(slots: Seq<Entry<V>>, select: Select)
    ensures
        distinct(slots) ==> distinct(without(slots, select)),
        forall|k: int|
            0 <= k < without(slots, select).len() ==> exists|m: int|
                0 <= m < slots.len() && slots[m] == #[trigger] without(slots, select)[k],
        forall|k: int|
            0 <= k < without(slots, select).len() ==> !select.takes(
                #[trigger] without(slots, select)[k],
            ),
        forall|m: int|
            0 <= m < slots.len() && !select.takes(#[trigger] slots[m]) ==> exists|k: int|
                0 <= k < without(slots, select).len() && without(slots, select)[k] == slots[m],
        match select {
            Select::Entry(repo, key) => !holds(without(slots, select), repo, key),
            Select::Repo(_) => true,
        },
    decreases slots.len(),
{
    if slots.len() > 0 {
        let front = slots.drop_last();
        lemma_without(front, select);
        let p = without(slots, select);
        let q = without(front, select);
        assert forall|k: int| 0 <= k < p.len() implies exists|m: int|
            0 <= m < slots.len() && slots[m] == #[trigger] p[k] by {
            if k < q.len() {
                let m = choose|m: int| 0 <= m < front.len() && front[m] == q[k];
                assert(slots[m] == p[k]);
            } else {
                assert(slots[slots.len() - 1] == p[k]);
            }
        }
        assert forall|m: int| 0 <= m < slots.len() && !select.takes(
            #[trigger] slots[m],
        ) implies exists|k: int| 0 <= k < p.len() && p[k] == slots[m] by {
            if m < front.len() {
                assert(front[m] == slots[m]);
                let k = choose|k: int| 0 <= k < q.len() && q[k] == front[m];
                assert(p[k] == slots[m]);
            } else {
                assert(p[p.len() - 1] == slots[m]);
            }
        }
        if distinct(slots) {
            assert(distinct(front));
            if !select.takes(slots.last()) {
                assert forall|i: int, j: int| 0 <= i < j < p.len() implies !(#[trigger] p[i]).is(
                    (#[trigger] p[j]).repo,
                    p[j].key,
                ) by {
                    if j < q.len() {
                        assert(p[i] == q[i] && p[j] == q[j]);
                    } else {
                        let m = choose|m: int| 0 <= m < front.len() && front[m] == q[i];
                        assert(slots[m] == p[i]);
                        assert(slots[slots.len() - 1] == p[j]);
                    }
                }
            }
        }
    }
    match select {
        Select::Entry(repo, key) => {
            let p = without(slots, select);
            assert forall|k: int| 0 <= k < p.len() implies !(#[trigger] p[k]).is(repo, key) by {
                assert(!select.takes(p[k]));
            }
        },
        Select::Repo(_) => {},
    }
}

/// Purging keeps entries in their order: none occurs twice afterwards, and
/// none of the repository is left.
pub proof fn lemma_purged<V>(slots: Seq<Entry<V>>, repo: Seq<char>)
    ensures
        distinct(slots) ==> distinct(purged(slots, repo)),
        forall|k: int|
            0 <= k < purged(slots, repo).len() ==> (#[trigger] purged(slots, repo)[k]).repo
                != repo,
{
    lemma_without(slots, Select::Repo(repo));
    let p = purged(slots, repo);
    assert forall|k: int| 0 <= k < p.len() implies (#[trigger] p[k]).repo != repo by {
        assert(!Select::Repo(repo).takes(p[k]));
    }
}

} // verus!
