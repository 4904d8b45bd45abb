use repo_lens::git::backend::parse_status_porcelain;

fn strings(items: &[&str]) -> Vec<String> {
    items.iter().map(|s| s.to_string()).collect()
}

#[test]
fn test_parse_status_porcelain() {
    // Test basic untracked file
    let input = b"?? file.txt\0";
    let status = parse_status_porcelain(input).unwrap();
    assert_eq!(status.untracked, vec!["file.txt"]);
    assert!(status.modified.is_empty());
    assert!(status.added.is_empty());
    assert!(status.deleted.is_empty());

    // Test modified file
    let input = b" M modified.txt\0";
    let status = parse_status_porcelain(input).unwrap();
    assert_eq!(status.modified, vec!["modified.txt"]);
    assert!(status.untracked.is_empty());

    // Test added file
    let input = b"A  added.txt\0";
    let status = parse_status_porcelain(input).unwrap();
    assert_eq!(status.added, vec!["added.txt"]);

    // Test deleted file
    let input = b" D deleted.txt\0";
    let status = parse_status_porcelain(input).unwrap();
    assert_eq!(status.deleted, vec!["deleted.txt"]);

    // Test multiple files
    let input = b"?? untracked.txt\0 M modified.txt\0A  added.txt\0";
    let status = parse_status_porcelain(input).unwrap();
    assert_eq!(status.untracked, vec!["untracked.txt"]);
    assert_eq!(status.modified, vec!["modified.txt"]);
    assert_eq!(status.added, vec!["added.txt"]);
}

#[test]
fn untracked_only_leaves_other_categories_empty() {
    let status = parse_status_porcelain(b"?? file.txt\0").unwrap();
    assert_eq!(status.untracked, strings(&["file.txt"]));
    assert!(status.modified.is_empty());
    assert!(status.added.is_empty());
    assert!(status.deleted.is_empty());
    assert!(status.renamed.is_empty());
}

#[test]
fn rename_consumes_the_following_record() {
    let status = parse_status_porcelain(b"R  new.txt\0old.txt\0?? other.txt\0").unwrap();
    assert_eq!(status.renamed, vec![("old.txt".to_string(), "new.txt".to_string())]);
    assert_eq!(status.untracked, strings(&["other.txt"]));
    assert!(status.modified.is_empty());
    assert!(status.added.is_empty());
    assert!(status.deleted.is_empty());
}

#[test]
fn rename_old_path_is_not_read_as_a_record() {
    // The old path looks like a status record of its own; it must not be read as one.
    let status = parse_status_porcelain(b"RM b.txt\0?? a.txt\0").unwrap();
    assert_eq!(status.renamed, vec![("?? a.txt".to_string(), "b.txt".to_string())]);
    assert!(status.untracked.is_empty());
}

#[test]
fn rename_without_old_path_adds_nothing() {
    let status = parse_status_porcelain(b"R  lonely.txt\0").unwrap();
    assert!(status.renamed.is_empty());
    assert!(status.modified.is_empty());
    assert!(status.added.is_empty());
    assert!(status.deleted.is_empty());
    assert!(status.untracked.is_empty());
}

#[test]
fn staged_and_unstaged_modifications() {
    let status = parse_status_porcelain(b"M  staged.txt\0MM both.txt\0 M unstaged.txt\0").unwrap();
    assert_eq!(status.modified, strings(&["staged.txt", "both.txt", "unstaged.txt"]));
}

#[test]
fn deleted_in_either_column() {
    let status = parse_status_porcelain(b"D  a\0 D b\0DM c\0").unwrap();
    assert_eq!(status.deleted, strings(&["a", "b", "c"]));
    assert!(status.modified.is_empty());
}

#[test]
fn added_with_any_worktree_code() {
    let status = parse_status_porcelain(b"AM a\0AD b\0A  c\0").unwrap();
    assert_eq!(status.added, strings(&["a", "b", "c"]));
    assert!(status.modified.is_empty());
    assert!(status.deleted.is_empty());
}

#[test]
fn codes_outside_the_table_are_read_per_column() {
    // Known incompleteness: the per-column reading is a best effort.
    let status =
        parse_status_porcelain(b"UU clash.txt\0CM copy.txt\0MT kind.txt\0!! ignored\0").unwrap();
    assert_eq!(status.modified, strings(&["copy.txt", "kind.txt"]));
    assert!(status.deleted.is_empty());
    assert!(status.added.is_empty());
    assert!(status.untracked.is_empty());
    assert!(status.renamed.is_empty());
}

#[test]
fn each_record_lands_in_one_category_only() {
    let status = parse_status_porcelain(b"MD gone.txt\0UD theirs.txt\0AD added.txt\0").unwrap();
    assert_eq!(status.deleted, strings(&["gone.txt", "theirs.txt"]));
    assert_eq!(status.added, strings(&["added.txt"]));
    assert!(status.modified.is_empty());
    let codes = [b' ', b'M', b'A', b'D', b'R', b'C', b'U', b'?', b'!', b'T'];
    for x in codes {
        for y in codes {
            let mut stream = vec![x, y, b' ', b'p', 0];
            stream.extend_from_slice(b"old\0");
            let status = parse_status_porcelain(&stream).unwrap();
            let hits = [
                status.modified.contains(&"p".to_string()),
                status.added.contains(&"p".to_string()),
                status.deleted.contains(&"p".to_string()),
                status.untracked.contains(&"p".to_string()),
                status.renamed.iter().any(|(_, new)| new == "p"),
            ];
            assert!(hits.iter().filter(|h| **h).count() <= 1, "codes {:?}", (x as char, y as char));
        }
    }
}

#[test]
fn rename_wins_over_the_worktree_column() {
    let status = parse_status_porcelain(b"RD new.txt\0old.txt\0RM b\0a\0").unwrap();
    assert_eq!(
        status.renamed,
        vec![("old.txt".to_string(), "new.txt".to_string()), ("a".to_string(), "b".to_string())]
    );
    assert!(status.deleted.is_empty());
    assert!(status.modified.is_empty());
}

#[test]
fn short_and_empty_records_are_passed_over() {
    let status = parse_status_porcelain(b"\0\0??\0?? ok\0A\0").unwrap();
    assert_eq!(status.untracked, strings(&["ok"]));
    assert!(status.added.is_empty());
}

#[test]
fn empty_stream_is_an_empty_status() {
    let status = parse_status_porcelain(b"").unwrap();
    assert!(status.modified.is_empty());
    assert!(status.added.is_empty());
    assert!(status.deleted.is_empty());
    assert!(status.renamed.is_empty());
    assert!(status.untracked.is_empty());
}

#[test]
fn record_without_final_nul_is_read() {
    let status = parse_status_porcelain(b"?? a\0 M b").unwrap();
    assert_eq!(status.untracked, strings(&["a"]));
    assert_eq!(status.modified, strings(&["b"]));
}

#[test]
fn paths_keep_spaces_and_unicode() {
    let status = parse_status_porcelain("?? dir/na\u{ef}ve file.txt\0".as_bytes()).unwrap();
    assert_eq!(status.untracked, strings(&["dir/na\u{ef}ve file.txt"]));
}

#[test]
fn malformed_utf8_is_replaced_not_rejected() {
    let status = parse_status_porcelain(b"?? bad\xffname\0").unwrap();
    assert_eq!(status.untracked, strings(&["bad\u{fffd}name"]));
}
