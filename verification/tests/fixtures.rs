use repo_lens::fixtures::synth_repo::{binary_data, FixtureError, FixtureStep, SynthRepo};
use repo_lens::fixtures::{FileGenerator, RepoConfig, RepoGenerator, RepoTemplate};

#[test]
fn test_repo_generator_creation() {
    let generator = RepoGenerator::new();
    assert_eq!(generator.config.initial_commits, 10);
}

#[test]
fn test_template_configs() {
    let empty_config = RepoTemplate::Empty.config();
    assert_eq!(empty_config.initial_commits, 0);

    let large_config = RepoTemplate::LargeRepo.config();
    assert_eq!(large_config.initial_commits, 1000);
    assert_eq!(large_config.num_branches, 10);
}

#[test]
fn test_file_generation() {
    let text = FileGenerator::generate_text_file(100);
    assert!(!text.is_empty());

    let binary = FileGenerator::generate_binary_file(100);
    assert!(!binary.is_empty());
}

#[test]
fn default_config_values() {
    let config = RepoConfig::default();
    assert_eq!(config.initial_commits, 10);
    assert_eq!(config.max_file_size, 1024 * 1024);
    assert_eq!(config.num_branches, 3);
    assert_eq!(RepoGenerator::default().config, config);
}

#[test]
fn every_template_has_its_configuration() {
    let mebibyte = 1024 * 1024;
    let expect = |t: RepoTemplate, commits: usize, size: usize, branches: usize| {
        let c = t.config();
        assert_eq!((c.initial_commits, c.max_file_size, c.num_branches), (commits, size, branches));
    };
    expect(RepoTemplate::Empty, 0, mebibyte, 3);
    expect(RepoTemplate::SingleCommit, 1, mebibyte, 3);
    expect(RepoTemplate::LinearHistory, 100, mebibyte, 1);
    expect(RepoTemplate::MergeHistory, 50, mebibyte, 5);
    expect(RepoTemplate::RenameHistory, 20, mebibyte, 2);
    expect(RepoTemplate::ConflictHistory, 10, mebibyte, 2);
    expect(RepoTemplate::LargeRepo, 1000, 10 * mebibyte, 10);
}

#[test]
fn generators_are_not_implemented() {
    let generator = RepoGenerator::with_config(RepoTemplate::MergeHistory.config());
    assert_eq!(generator.config.num_branches, 5);
    let message = "Repository generation not implemented".to_string();
    assert_eq!(generator.generate_basic(), Err(message.clone()));
    assert_eq!(generator.generate_with_merges(3), Err(message.clone()));
    assert_eq!(generator.generate_with_renames(3), Err(message.clone()));
    assert_eq!(generator.generate_with_conflicts(), Err(message.clone()));
    assert_eq!(generator.generate_with_large_files(3), Err(message));
}

#[test]
fn generated_files_have_fixed_content() {
    assert_eq!(FileGenerator::generate_text_file(0), "Generated test content");
    assert_eq!(FileGenerator::generate_binary_file(0), vec![0, 1, 2, 3, 4]);
    assert_eq!(FileGenerator::generate_conflict_file(), "line 1\nline 2\nline 3\n");
}

fn git_args(step: &FixtureStep) -> Vec<String> {
    match step {
        FixtureStep::Git { args } => args.clone(),
        other => panic!("expected a git step, got {:?}", other),
    }
}

fn strings(items: &[&str]) -> Vec<String> {
    items.iter().map(|s| s.to_string()).collect()
}

#[test]
fn binary_data_cycles_through_all_bytes_twice() {
    let data = binary_data();
    let expected: Vec<u8> = (0u8..=255).cycle().take(512).collect();
    assert_eq!(data, expected);
}

#[test]
fn fixture_location_is_below_target() {
    let repo = SynthRepo::located("/work/space", "oracle_diff");
    assert_eq!(repo.path, "/work/space/target/rl_fixtures/oracle_diff/repo");
}

#[test]
fn c0_adds_two_files_and_tags() {
    let repo = SynthRepo::located("/w", "t");
    let steps = repo.create_c0();
    assert_eq!(steps.len(), 6);
    match &steps[0] {
        FixtureStep::WriteText { path, content } => {
            assert_eq!(path, "a.txt");
            assert_eq!(content.lines().count(), 13);
            assert!(content.starts_with("line 1\nline 2\n"));
            assert!(content.ends_with("line 13\n"));
        }
        other => panic!("unexpected step {:?}", other),
    }
    assert!(matches!(&steps[1], FixtureStep::MakeDir { path } if path == "dir"));
    match &steps[2] {
        FixtureStep::WriteText { path, content } => {
            assert_eq!(path, "dir/b.txt");
            assert_eq!(content, "content of b\nline 2 of b\nline 3 of b\n");
        }
        other => panic!("unexpected step {:?}", other),
    }
    assert_eq!(git_args(&steps[3]), strings(&["add", "."]));
    assert_eq!(git_args(&steps[4]), strings(&["commit", "-m", "C0: initial commit"]));
    assert_eq!(git_args(&steps[5]), strings(&["tag", "C0"]));
}

#[test]
fn c1_modifies_and_adds() {
    let steps = SynthRepo::located("/w", "t").create_c1();
    assert_eq!(steps.len(), 5);
    match &steps[0] {
        FixtureStep::WriteText { path, content } => {
            assert_eq!(path, "a.txt");
            assert!(content.contains("line 2 modified\n"));
            assert!(!content.contains("line 4\n"));
            assert!(content.ends_with("new line 14\nnew line 15\n"));
        }
        other => panic!("unexpected step {:?}", other),
    }
    match &steps[1] {
        FixtureStep::WriteText { path, content } => {
            assert_eq!(path, "new.txt");
            assert_eq!(content, "this is a new file\nwith some content\n");
        }
        other => panic!("unexpected step {:?}", other),
    }
    assert_eq!(git_args(&steps[3]), strings(&["commit", "-m", "C1: modify + add"]));
    assert_eq!(git_args(&steps[4]), strings(&["tag", "C1"]));
}

#[test]
fn c2_renames() {
    let steps = SynthRepo::located("/w", "t").create_c2();
    assert_eq!(steps.len(), 3);
    assert_eq!(git_args(&steps[0]), strings(&["mv", "dir/b.txt", "dir/c.txt"]));
    assert_eq!(git_args(&steps[1]), strings(&["commit", "-m", "C2: rename"]));
    assert_eq!(git_args(&steps[2]), strings(&["tag", "C2"]));
}

#[test]
fn c3_deletes_and_adds_binary() {
    let steps = SynthRepo::located("/w", "t").create_c3();
    assert_eq!(steps.len(), 5);
    assert_eq!(git_args(&steps[0]), strings(&["rm", "new.txt"]));
    match &steps[1] {
        FixtureStep::WriteBinary { path, content } => {
            assert_eq!(path, "bin.dat");
            assert_eq!(content.len(), 512);
            assert_eq!(content[255], 255);
            assert_eq!(content[256], 0);
        }
        other => panic!("unexpected step {:?}", other),
    }
    assert_eq!(git_args(&steps[4]), strings(&["tag", "C3"]));
}

#[test]
fn initialize_sets_up_then_makes_all_four_commits() {
    let steps = SynthRepo::located("/w", "t").initialize();
    assert_eq!(steps.len(), 3 + 6 + 5 + 3 + 5);
    assert_eq!(git_args(&steps[0]), strings(&["init"]));
    assert_eq!(git_args(&steps[1]), strings(&["config", "user.name", "Test User"]));
    assert_eq!(git_args(&steps[2]), strings(&["config", "user.email", "test@example.com"]));
    let tags: Vec<String> = steps
        .iter()
        .filter_map(|s| match s {
            FixtureStep::Git { args } if args[0] == "tag" => Some(args[1].clone()),
            _ => None,
        })
        .collect();
    assert_eq!(tags, strings(&["C0", "C1", "C2", "C3"]));
}

#[test]
fn fixture_errors_render_with_their_kind() {
    assert_eq!(FixtureError::Io("disk full".to_string()).message(), "IO error: disk full");
    let failed = SynthRepo::command_failed("tag C0", "fatal: tag exists");
    assert_eq!(failed.message(), "Git error: git tag C0 failed: fatal: tag exists");
}
