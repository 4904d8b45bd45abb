use repo_lens::api::error::ErrorCode;
use repo_lens::api::response::{ChangeType, FileChange};
use repo_lens::engine::diff::{
    lookup_stats, parse_diff_summary, parse_name_status, parse_name_status_line, parse_numstat,
    parse_numstat_line, summarize, NumstatEntry,
};

fn chars(s: &str) -> Vec<char> {
    s.chars().collect()
}

fn kind(change: &FileChange) -> char {
    match change.change_type {
        ChangeType::Added => 'A',
        ChangeType::Modified => 'M',
        ChangeType::Deleted => 'D',
        ChangeType::Renamed => 'R',
    }
}

fn row(change: &FileChange) -> (char, String, usize, usize, Option<String>) {
    (kind(change), change.path.clone(), change.additions, change.deletions, change.old_path.clone())
}

#[test]
fn modified_and_added_file() {
    let summary =
        parse_diff_summary("M\ta.txt\nA\tnew.txt\n", "3\t2\ta.txt\n2\t0\tnew.txt\n").unwrap();
    assert_eq!(summary.files_changed, 2);
    assert_eq!(row(&summary.changes[0]), ('M', "a.txt".to_string(), 3, 2, None));
    assert_eq!(row(&summary.changes[1]), ('A', "new.txt".to_string(), 2, 0, None));
    assert_eq!(summary.additions, 5);
    assert_eq!(summary.deletions, 2);
    let per_file: usize = summary.changes.iter().map(|c| c.additions + c.deletions).sum();
    assert_eq!(summary.additions + summary.deletions, per_file);
}

#[test]
fn rename_takes_old_and_new_path() {
    let summary = parse_diff_summary("R100\tdir/b.txt\tdir/c.txt\n", "0\t0\tdir/{b.txt => c.txt}\n")
        .unwrap();
    assert_eq!(summary.files_changed, 1);
    assert_eq!(
        row(&summary.changes[0]),
        ('R', "dir/c.txt".to_string(), 0, 0, Some("dir/b.txt".to_string()))
    );
}

#[test]
fn rename_counts_match_on_the_new_path_only() {
    let summary =
        parse_diff_summary("R087\told.rs\tnew.rs\n", "1\t1\told.rs\n4\t3\tnew.rs\n").unwrap();
    assert_eq!(
        row(&summary.changes[0]),
        ('R', "new.rs".to_string(), 4, 3, Some("old.rs".to_string()))
    );
}

#[test]
fn binary_file_counts_zero() {
    let summary =
        parse_diff_summary("D\tnew.txt\nA\tbin.dat\n", "-\t-\tbin.dat\n0\t2\tnew.txt\n").unwrap();
    assert_eq!(summary.files_changed, 2);
    assert_eq!(row(&summary.changes[0]), ('D', "new.txt".to_string(), 0, 2, None));
    assert_eq!(row(&summary.changes[1]), ('A', "bin.dat".to_string(), 0, 0, None));
    assert_eq!((summary.additions, summary.deletions), (0, 2));
}

#[test]
fn path_without_numstat_line_counts_zero() {
    let summary = parse_diff_summary("M\tknown.txt\nM\tunknown.txt\n", "7\t1\tknown.txt\n").unwrap();
    assert_eq!(row(&summary.changes[1]), ('M', "unknown.txt".to_string(), 0, 0, None));
    assert_eq!((summary.files_changed, summary.additions, summary.deletions), (2, 7, 1));
}

#[test]
fn paths_match_exactly() {
    let summary = parse_diff_summary("M\tsrc/a.txt\n", "5\t5\ta.txt\n9\t9\tsrc/a.txt.bak\n").unwrap();
    assert_eq!(row(&summary.changes[0]), ('M', "src/a.txt".to_string(), 0, 0, None));
}

#[test]
fn last_numstat_line_for_a_path_wins() {
    let summary = parse_diff_summary("M\ta\n", "1\t1\ta\n2\t3\ta\n").unwrap();
    assert_eq!(row(&summary.changes[0]), ('M', "a".to_string(), 2, 3, None));
}

#[test]
fn numstat_path_words_are_joined_by_single_blanks() {
    let entry = parse_numstat_line(&chars("  3 \t 4   my   file\tname.txt  ")).unwrap();
    assert_eq!((entry.added, entry.deleted), (3, 4));
    assert_eq!(entry.path, "my file name.txt");
    let summary = parse_diff_summary("M\tmy file.txt\n", "3\t4\tmy   file.txt\n").unwrap();
    assert_eq!(row(&summary.changes[0]), ('M', "my file.txt".to_string(), 3, 4, None));
}

#[test]
fn numstat_lines_with_fewer_than_three_words_say_nothing() {
    assert!(parse_numstat_line(&chars("")).is_none());
    assert!(parse_numstat_line(&chars("   \t ")).is_none());
    assert!(parse_numstat_line(&chars("1\t2")).is_none());
    assert!(parse_numstat_line(&chars("1")).is_none());
    assert_eq!(parse_numstat(&chars("\n1\t2\n\n5\t6\tok\n  \n")).len(), 1);
}

#[test]
fn numstat_words_that_are_no_counts_stand_for_zero() {
    let entry = parse_numstat_line(&chars("x\t-3\tp")).unwrap();
    assert_eq!((entry.added, entry.deleted), (0, 0));
    let entry = parse_numstat_line(&chars("+12\t99999999999999999999999999\tp")).unwrap();
    assert_eq!((entry.added, entry.deleted), (12, 0));
}

#[test]
fn unknown_status_letters_are_skipped() {
    let summary = parse_diff_summary("C\tcopied\nT\ttype\nU\tunmerged\n?\tx\n \tx\n\nM\tkept\n", "")
        .unwrap();
    assert_eq!(summary.files_changed, 1);
    assert_eq!(summary.changes[0].path, "kept");
}

#[test]
fn lines_with_too_few_fields_are_skipped() {
    let stats: Vec<NumstatEntry> = Vec::new();
    assert!(parse_name_status_line(&chars("M"), &stats).is_none());
    assert!(parse_name_status_line(&chars("A"), &stats).is_none());
    assert!(parse_name_status_line(&chars("R100\tonly-old"), &stats).is_none());
    assert!(parse_name_status_line(&chars("R"), &stats).is_none());
    assert!(parse_name_status_line(&chars(""), &stats).is_none());
    assert!(parse_name_status_line(&chars("\tpath"), &stats).is_none());
    let change = parse_name_status_line(&chars("D\t"), &stats).unwrap();
    assert_eq!(row(&change), ('D', "".to_string(), 0, 0, None));
}

#[test]
fn name_status_fields_are_split_on_tabs_only() {
    let stats: Vec<NumstatEntry> = Vec::new();
    let change = parse_name_status_line(&chars("M\tdir with space/file name.txt\textra"), &stats)
        .unwrap();
    assert_eq!(change.path, "dir with space/file name.txt");
    let change = parse_name_status_line(&chars("Modified\tp"), &stats).unwrap();
    assert_eq!(kind(&change), 'M');
}

#[test]
fn windows_line_endings() {
    let summary = parse_diff_summary("M\ta.txt\r\nA\tb.txt\r\n", "1\t2\ta.txt\r\n3\t4\tb.txt\r\n")
        .unwrap();
    assert_eq!(row(&summary.changes[0]), ('M', "a.txt".to_string(), 1, 2, None));
    assert_eq!(row(&summary.changes[1]), ('A', "b.txt".to_string(), 3, 4, None));
}

#[test]
fn empty_listings_give_an_empty_summary() {
    let summary = parse_diff_summary("", "").unwrap();
    assert_eq!((summary.files_changed, summary.additions, summary.deletions), (0, 0, 0));
    assert!(summary.changes.is_empty());
}

#[test]
fn lookup_and_listing_helpers() {
    let stats = parse_numstat(&chars("1\t2\ta\n3\t4\tb\n"));
    assert_eq!(stats.len(), 2);
    assert_eq!(lookup_stats(&stats, &"a".to_string()), (1, 2));
    assert_eq!(lookup_stats(&stats, &"b".to_string()), (3, 4));
    assert_eq!(lookup_stats(&stats, &"c".to_string()), (0, 0));
    let changes = parse_name_status(&chars("A\tb\nD\ta\n"), &stats);
    assert_eq!(changes.len(), 2);
    assert_eq!(row(&changes[0]), ('A', "b".to_string(), 3, 4, None));
    assert_eq!(row(&changes[1]), ('D', "a".to_string(), 1, 2, None));
}

fn change(path: &str, additions: usize, deletions: usize) -> FileChange {
    FileChange {
        path: path.to_string(),
        change_type: ChangeType::Modified,
        additions,
        deletions,
        old_path: None,
    }
}

#[test]
fn summary_counts_are_sums_over_the_records() {
    let summary = summarize(vec![change("a", 1, 10), change("b", 2, 20), change("c", 3, 30)]).unwrap();
    assert_eq!((summary.files_changed, summary.additions, summary.deletions), (3, 6, 60));
    assert_eq!(summary.changes.len(), 3);
}

#[test]
fn sums_that_do_not_fit_are_an_error() {
    let e = summarize(vec![change("a", usize::MAX, 0), change("b", 1, 0)]).unwrap_err();
    assert_eq!(e.code, ErrorCode::GitBackendError);
    assert_eq!(e.message, "diff counts exceed the machine word");
    let e = summarize(vec![change("a", 0, 1), change("b", 0, usize::MAX)]).unwrap_err();
    assert_eq!(e.code, ErrorCode::GitBackendError);
    let ok = summarize(vec![change("a", usize::MAX - 1, 0), change("b", 1, usize::MAX)]).unwrap();
    assert_eq!((ok.additions, ok.deletions), (usize::MAX, usize::MAX));
    let max = usize::MAX;
    let numstat = format!("{}\t0\ta\n1\t0\tb\n", max);
    let e = parse_diff_summary("M\ta\nM\tb\n", &numstat).unwrap_err();
    assert_eq!(e.code, ErrorCode::GitBackendError);
}
