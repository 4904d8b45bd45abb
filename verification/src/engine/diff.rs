//! Diff summaries: a rename-aware name-status listing and a numeric stat
//! listing are combined into per-file change records.

use crate::api::error::{Error, ErrorCode};
use crate::api::response::{ChangeType, DiffSummary, FileChange};
use crate::text::{
    char_is, count_of, cut, field_ranges, fields_from, from_chars, join, line_ranges, lines,
    parse_count, ranges_within, to_chars, token_ranges, tokens_from, whitespace, Delim,
};
use vstd::prelude::*;

verus! {

/// One line of the numeric stat listing.
#[derive(Debug, Clone)]
pub struct NumstatEntry {
    /// The path the counts belong to
    pub path: String,
    /// Lines added
    pub added: usize,
    /// Lines deleted
    pub deleted: usize,
}

/// A numeric stat entry as plain values.
pub struct NumstatModel {
    pub path: Seq<char>,
    pub added: usize,
    pub deleted: usize,
}

impl View for NumstatEntry {
    type V = NumstatModel;

    open spec fn view(&self) -> NumstatModel {
        NumstatModel { path: self.path@, added: self.added, deleted: self.deleted }
    }
}

/// A per-file change record as plain values.
pub struct ChangeModel {
    pub path: Seq<char>,
    pub change_type: ChangeType,
    pub additions: usize,
    pub deletions: usize,
    pub old_path: Option<Seq<char>>,
}

impl View for FileChange {
    type V = ChangeModel;

    open spec fn view(&self) -> ChangeModel {
        ChangeModel {
            path: self.path@,
            change_type: self.change_type,
            additions: self.additions,
            deletions: self.deletions,
            old_path: match self.old_path {
                Some(p) => Some(p@),
                None => None,
            },
        }
    }
}

/// A diff summary as plain values.
pub struct SummaryModel {
    pub files_changed: usize,
    pub additions: usize,
    pub deletions: usize,
    pub changes: Seq<ChangeModel>,
}

impl View for DiffSummary {
    type V = SummaryModel;

    open spec fn view(&self) -> SummaryModel {
        SummaryModel {
            files_changed: self.files_changed,
            additions: self.additions,
            deletions: self.deletions,
            changes: change_views(self.changes@),
        }
    }
}

/// The entries that a list of numeric stat entries holds.
pub open spec fn stat_views(v: Seq<NumstatEntry>) -> Seq<NumstatModel> {
    v.map_values(|e: NumstatEntry| e@)
}

/// The records that a list of file changes holds.
pub open spec fn change_views(v: Seq<FileChange>) -> Seq<ChangeModel> {
    v.map_values(|c: FileChange| c@)
}

/// The count that a word of the numeric stat listing stands for; a word that
/// is no count (binary files are listed with a dash) stands for zero.
pub open spec fn count_or_zero(word: Seq<char>) -> usize {
    match parse_count(word) {
        Some(n) => n,
        None => 0,
    }
}

/// What one line of the numeric stat listing says: the first two words are
/// the counts and the remaining words, joined by single blanks, the path. A
/// line with fewer than three words says nothing.
pub open spec fn numstat_of_line(line: Seq<char>) -> Option<NumstatModel> {
    let words = tokens_from(line, 0, whitespace());
    if words.len() >= 3 {
        Some(
            NumstatModel {
                path: join(words.skip(2), ' '),
                added: count_or_zero(words[0]),
                deleted: count_or_zero(words[1]),
            },
        )
    } else {
        None
    }
}

/// The entries of the numeric stat listing with the given lines, in order.
pub open spec fn numstat_entries(lines: Seq<Seq<char>>) -> Seq<NumstatModel>
    decreases lines.len(),
{
    if lines.len() == 0 {
        Seq::empty()
    } else {
        let before = numstat_entries(lines.drop_last());
        match numstat_of_line(lines.last()) {
            Some(e) => before.push(e),
            None => before,
        }
    }
}

/// The counts listed for exactly `path`: those of the last entry with that
/// path, or zero where there is none.
pub open spec fn stats_for(entries: Seq<NumstatModel>, path: Seq<char>) -> (usize, usize)
    decreases entries.len(),
{
    if entries.len() == 0 {
        (0, 0)
    } else if entries.last().path == path {
        (entries.last().added, entries.last().deleted)
    } else {
        stats_for(entries.drop_last(), path)
    }
}

/// The status letter of a name-status line: the first character of its first
/// field, or a blank where that field is empty.
pub open spec fn status_letter(parts: Seq<Seq<char>>) -> char {
    if parts.len() > 0 && parts[0].len() > 0 {
        parts[0][0]
    } else {
        ' '
    }
}

/// The change type that a status letter stands for.
pub open spec fn change_type_of(letter: char) -> Option<ChangeType> {
    if letter == 'A' {
        Some(ChangeType::Added)
    } else if letter == 'M' {
        Some(ChangeType::Modified)
    } else if letter == 'D' {
        Some(ChangeType::Deleted)
    } else if letter == 'R' {
        Some(ChangeType::Renamed)
    } else {
        None
    }
}

/// The record of a change of `change_type` at `path`, with the counts that
/// `stats` lists for that path.
pub open spec fn change_record(
    change_type: ChangeType,
    path: Seq<char>,
    old_path: Option<Seq<char>>,
    stats: Seq<NumstatModel>,
) -> ChangeModel {
    ChangeModel {
        path,
        change_type,
        additions: stats_for(stats, path).0,
        deletions: stats_for(stats, path).1,
        old_path,
    }
}

/// What one line of the name-status listing says. Its fields are separated
/// by tabs: the status, then the path; for a rename the status, the old path
/// and the new path. A line with an unknown status letter or too few fields
/// says nothing.
pub open spec fn change_of_line(line: Seq<char>, stats: Seq<NumstatModel>) -> Option<ChangeModel> {
    let parts = fields_from(line, 0, char_is('\t'));
    match change_type_of(status_letter(parts)) {
        Some(ChangeType::Renamed) => if parts.len() >= 3 {
            Some(change_record(ChangeType::Renamed, parts[2], Some(parts[1]), stats))
        } else {
            None
        },
        Some(change_type) => if parts.len() >= 2 {
            Some(change_record(change_type, parts[1], None, stats))
        } else {
            None
        },
        None => None,
    }
}

/// The change records of the name-status listing with the given lines.
pub open spec fn changes_of(lines: Seq<Seq<char>>, stats: Seq<NumstatModel>) -> Seq<ChangeModel>
    decreases lines.len(),
{
    if lines.len() == 0 {
        Seq::empty()
    } else {
        let before = changes_of(lines.drop_last(), stats);
        match change_of_line(lines.last(), stats) {
            Some(c) => before.push(c),
            None => before,
        }
    }
}

/// The change records that the two listings describe together.
pub open spec fn diff_changes(name_status: Seq<char>, numstat: Seq<char>) -> Seq<ChangeModel> {
    changes_of(lines(name_status), numstat_entries(lines(numstat)))
}

/// Sum of the additions of all records.
pub open spec fn total_additions(changes: Seq<ChangeModel>) -> nat
    decreases changes.len(),
{
    if changes.len() == 0 {
        0
    } else {
        total_additions(changes.drop_last()) + changes.last().additions as nat
    }
}

/// Sum of the deletions of all records.
pub open spec fn total_deletions(changes: Seq<ChangeModel>) -> nat
    decreases changes.len(),
{
    if changes.len() == 0 {
        0
    } else {
        total_deletions(changes.drop_last()) + changes.last().deletions as nat
    }
}

/// Whether the aggregate counts of `summary` are the sums over its records.
pub open spec fn derived(summary: SummaryModel) -> bool {
    &&& summary.files_changed == summary.changes.len()
    &&& summary.additions == total_additions(summary.changes)
    &&& summary.deletions == total_deletions(summary.changes)
}

/// Whether the sums over `changes` fit the machine word.
pub open spec fn countable(changes: Seq<ChangeModel>) -> bool {
    total_additions(changes) <= usize::MAX && total_deletions(changes) <= usize::MAX
}

/// The summary of `changes`: its aggregate counts are the sums over the
/// records.
pub open spec fn summary_of(changes: Seq<ChangeModel>) -> SummaryModel {
    SummaryModel {
        files_changed: changes.len() as usize,
        additions: total_additions(changes) as usize,
        deletions: total_deletions(changes) as usize,
        changes,
    }
}

/// The sums grow with the list: the counts of a prefix never exceed those of
/// the whole.
pub proof fn lemma_totals_grow(changes: Seq<ChangeModel>, n: int)
    requires
        0 <= n <= changes.len(),
    ensures
        total_additions(changes.take(n)) <= total_additions(changes),
        total_deletions(changes.take(n)) <= total_deletions(changes),
    decreases changes.len(),
{
    if n < changes.len() {
        assert(changes.drop_last().take(n) =~= changes.take(n));
        lemma_totals_grow(changes.drop_last(), n);
    } else {
        assert(changes.take(n) =~= changes);
    }
}

/// A summary of two records counts two files, and its additions and
/// deletions are the sums of the two records' own counts.
pub proof fn lemma_summary_of_two(a: ChangeModel, b: ChangeModel)
    ensures
        summary_of(seq![a, b]).files_changed == 2,
        total_additions(seq![a, b]) == a.additions + b.additions,
        total_deletions(seq![a, b]) == a.deletions + b.deletions,
        total_additions(seq![a, b]) + total_deletions(seq![a, b]) == (a.additions + a.deletions) + (
        b.additions + b.deletions),
{
    let s = seq![a, b];
    assert(s.drop_last() =~= seq![a]);
    assert(seq![a].drop_last() =~= Seq::<ChangeModel>::empty());
    assert(total_additions(seq![a].drop_last()) == 0);
    assert(total_deletions(seq![a].drop_last()) == 0);
    assert(seq![a].last() == a);
    assert(total_additions(seq![a]) == a.additions);
    assert(total_deletions(seq![a]) == a.deletions);
}

/// Append the characters of `chars` to `s`.
fn append_chars(s: &mut String, chars: &[char])
    ensures
        final(s)@ == old(s)@ + chars@,
{
    let mut i: usize = 0;
    while i < chars.len()
        invariant
            i <= chars.len(),
            s@ == old(s)@ + chars@.take(i as int),
        decreases chars.len() - i,
    {
        s.push(chars[i]);
        assert(chars@.take(i + 1) =~= chars@.take(i as int).push(chars@[i as int]));
        i += 1;
    }
    assert(chars@.take(i as int) =~= chars@);
}

/// The count that a word stands for, zero where it is no count.
fn word_count(word: &[char]) -> (n: usize)
    ensures
        n == count_or_zero(word@),
{
    match count_of(word) {
        Some(n) => n,
        None => 0,
    }
}

/// What one line of the numeric stat listing says.
pub fn parse_numstat_line(line: &[char]) -> (r: Option<NumstatEntry>)
    ensures
        match r {
            Some(e) => numstat_of_line(line@) == Some(e@),
            None => numstat_of_line(line@) is None,
        },
{
    let words = token_ranges(line, Delim::Space);
    let ghost parts = tokens_from(line@, 0, whitespace());
    if words.len() < 3 {
        return None;
    }
    assert(parts[0] == line@.subrange(words@[0].0 as int, words@[0].1 as int));
    assert(parts[1] == line@.subrange(words@[1].0 as int, words@[1].1 as int));
    let added = word_count(&line[words[0].0..words[0].1]);
    let deleted = word_count(&line[words[1].0..words[1].1]);
    let mut path = String::new();
    let mut k: usize = 2;
    assert(parts.skip(2).take(0) =~= Seq::<Seq<char>>::empty());
    while k < words.len()
        invariant
            2 <= k <= words.len(),
            words.len() >= 3,
            ranges_within(words@, line@.len()),
            cut(line@, words@) == parts,
            path@ == join(parts.skip(2).take(k - 2), ' '),
        decreases words.len() - k,
    {
        let ghost done = parts.skip(2).take(k - 2);
        let ghost next = parts.skip(2).take(k - 1);
        assert(next.drop_last() =~= done);
        assert(next.last() == parts[k as int]);
        assert(parts[k as int] == line@.subrange(words@[k as int].0 as int, words@[k as int].1 as int));
        if k > 2 {
            path.push(' ');
        }
        append_chars(&mut path, &line[words[k].0..words[k].1]);
        assert(path@ =~= join(next, ' ')) by {
            if k == 2 {
                assert(done.len() == 0);
                assert(next.len() == 1);
                assert(join(done, ' ') =~= Seq::<char>::empty());
            }
        }
        k += 1;
    }
    assert(parts.skip(2).take(k - 2) =~= parts.skip(2));
    Some(NumstatEntry { path, added, deleted })
}

/// The entries of the numeric stat listing, in order.
pub fn parse_numstat(text: &[char]) -> (r: Vec<NumstatEntry>)
    ensures
        stat_views(r@) == numstat_entries(lines(text@)),
{
    let ranges = line_ranges(text);
    let ghost all = lines(text@);
    let mut r: Vec<NumstatEntry> = Vec::new();
    let mut i: usize = 0;
    assert(all.take(0) =~= Seq::<Seq<char>>::empty());
    assert(stat_views(r@) =~= Seq::<NumstatModel>::empty());
    while i < ranges.len()
        invariant
            i <= ranges.len(),
            ranges_within(ranges@, text@.len()),
            cut(text@, ranges@) == all,
            stat_views(r@) == numstat_entries(all.take(i as int)),
        decreases ranges.len() - i,
    {
        let (start, end) = ranges[i];
        assert(all[i as int] == text@.subrange(start as int, end as int));
        assert(all.take(i + 1).drop_last() =~= all.take(i as int));
        assert(all.take(i + 1).last() == all[i as int]);
        match parse_numstat_line(&text[start..end]) {
            Some(entry) => {
                let ghost before = r@;
                r.push(entry);
                assert(stat_views(r@) =~= stat_views(before).push(entry@));
            },
            None => {},
        }
        i += 1;
    }
    assert(all.take(i as int) =~= all);
    r
}

/// The counts listed for exactly `path`, zero where there are none.
pub fn lookup_stats(stats: &Vec<NumstatEntry>, path: &String) -> (r: (usize, usize))
    ensures
        r == stats_for(stat_views(stats@), path@),
{
    let mut i: usize = stats.len();
    assert(stat_views(stats@).take(i as int) =~= stat_views(stats@));
    while i > 0
        invariant
            i <= stats.len(),
            stats_for(stat_views(stats@).take(i as int), path@) == stats_for(
                stat_views(stats@),
                path@,
            ),
        decreases i,
    {
        let ghost upto = stat_views(stats@).take(i as int);
        assert(upto.last() == stats@[i - 1]@);
        assert(upto.drop_last() =~= stat_views(stats@).take(i - 1));
        if stats[i - 1].path == *path {
            return (stats[i - 1].added, stats[i - 1].deleted);
        }
        i -= 1;
    }
    (0, 0)
}

/// What one line of the name-status listing says.
pub fn parse_name_status_line(line: &[char], stats: &Vec<NumstatEntry>) -> (r: Option<FileChange>)
    ensures
        match r {
            Some(c) => change_of_line(line@, stat_views(stats@)) == Some(c@),
            None => change_of_line(line@, stat_views(stats@)) is None,
        },
{
    let fields = field_ranges(line, Delim::Char('\t'));
    let ghost parts = fields_from(line@, 0, char_is('\t'));
    assert(parts[0] == line@.subrange(fields@[0].0 as int, fields@[0].1 as int));
    let letter = if fields[0].1 > fields[0].0 {
        line[fields[0].0]
    } else {
        ' '
    };
    assert(letter == status_letter(parts));
    let change_type = if letter == 'A' {
        ChangeType::Added
    } else if letter == 'M' {
        ChangeType::Modified
    } else if letter == 'D' {
        ChangeType::Deleted
    } else if letter == 'R' {
        ChangeType::Renamed
    } else {
        return None;
    };
    if fields.len() < 2 {
        return None;
    }
    assert(parts[1] == line@.subrange(fields@[1].0 as int, fields@[1].1 as int));
    let second = from_chars(&line[fields[1].0..fields[1].1]);
    let (path, old_path) = if letter == 'R' {
        if fields.len() < 3 {
            return None;
        }
        assert(parts[2] == line@.subrange(fields@[2].0 as int, fields@[2].1 as int));
        (from_chars(&line[fields[2].0..fields[2].1]), Some(second))
    } else {
        (second, None)
    };
    let (additions, deletions) = lookup_stats(stats, &path);
    Some(FileChange { path, change_type, additions, deletions, old_path })
}

/// The change records of the name-status listing, with the counts that
/// `stats` lists for each path.
pub fn parse_name_status(text: &[char], stats: &Vec<NumstatEntry>) -> (r: Vec<FileChange>)
    ensures
        change_views(r@) == changes_of(lines(text@), stat_views(stats@)),
{
    let ranges = line_ranges(text);
    let ghost all = lines(text@);
    let mut r: Vec<FileChange> = Vec::new();
    let mut i: usize = 0;
    assert(all.take(0) =~= Seq::<Seq<char>>::empty());
    assert(change_views(r@) =~= Seq::<ChangeModel>::empty());
    while i < ranges.len()
        invariant
            i <= ranges.len(),
            ranges_within(ranges@, text@.len()),
            cut(text@, ranges@) == all,
            change_views(r@) == changes_of(all.take(i as int), stat_views(stats@)),
        decreases ranges.len() - i,
    {
        let (start, end) = ranges[i];
        assert(all[i as int] == text@.subrange(start as int, end as int));
        assert(all.take(i + 1).drop_last() =~= all.take(i as int));
        assert(all.take(i + 1).last() == all[i as int]);
        match parse_name_status_line(&text[start..end], stats) {
            Some(change) => {
                let ghost before = r@;
                r.push(change);
                assert(change_views(r@) =~= change_views(before).push(change@));
            },
            None => {},
        }
        i += 1;
    }
    assert(all.take(i as int) =~= all);
    r
}

/// The summary of the given change records. Its aggregate counts are sums
/// over the records; where a sum does not fit the machine word there is no
/// summary, and a backend error says so.
pub fn summarize(changes: Vec<FileChange>) -> (r: Result<DiffSummary, Error>)
    ensures
        match r {
            Ok(summary) => countable(change_views(changes@)) && summary@ == summary_of(
                change_views(changes@),
            ) && summary.changes == changes && derived(summary@),
            Err(e) => !countable(change_views(changes@)) && e.code == ErrorCode::GitBackendError
                && e.message@ == "diff counts exceed the machine word"@ && e.remediation is None
                && e.details is None,
        },
{
    let ghost all = change_views(changes@);
    let mut additions: usize = 0;
    let mut deletions: usize = 0;
    let mut i: usize = 0;
    assert(all.take(0) =~= Seq::<ChangeModel>::empty());
    while i < changes.len()
        invariant
            i <= changes.len(),
            all == change_views(changes@),
            additions == total_additions(all.take(i as int)),
            deletions == total_deletions(all.take(i as int)),
        decreases changes.len() - i,
    {
        assert(all.take(i + 1).drop_last() =~= all.take(i as int));
        assert(all.take(i + 1).last() == changes@[i as int]@);
        let change = &changes[i];
        if change.additions > usize::MAX - additions || change.deletions > usize::MAX - deletions {
            proof {
                lemma_totals_grow(all, i + 1);
            }
            return Err(
                Error::with_message(
                    ErrorCode::GitBackendError,
                    "diff counts exceed the machine word",
                ),
            );
        }
        additions = additions + change.additions;
        deletions = deletions + change.deletions;
        i += 1;
    }
    assert(all.take(i as int) =~= all);
    let files_changed = changes.len();
    Ok(DiffSummary { files_changed, additions, deletions, changes })
}

/// Combine the name-status listing and the numeric stat listing of one diff
/// into its summary. Paths are matched exactly; a path without a numeric
/// stat line counts zero additions and deletions.
pub fn parse_diff_summary(name_status: &str, numstat: &str) -> (r: Result<DiffSummary, Error>)
    ensures
        match r {
            Ok(summary) => countable(diff_changes(name_status@, numstat@)) && summary@
                == summary_of(diff_changes(name_status@, numstat@)) && derived(summary@),
            Err(e) => !countable(diff_changes(name_status@, numstat@)) && e.code
                == ErrorCode::GitBackendError && e.message@
                == "diff counts exceed the machine word"@ && e.remediation is None && e.details is None,
        },
{
    let numstat_chars = to_chars(numstat);
    let stats = parse_numstat(numstat_chars.as_slice());
    let name_status_chars = to_chars(name_status);
    let changes = parse_name_status(name_status_chars.as_slice(), &stats);
    summarize(changes)
}

} // verus!
