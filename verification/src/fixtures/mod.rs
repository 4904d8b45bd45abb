//! Helpers for synthetic repositories with edge cases (merges, renames,
//! conflicts, large files).

pub mod synth_repo;

use vstd::prelude::*;
use vstd::string::StringExecFns;

verus! {

/// Configuration for repository generation.
#[derive(Debug, Clone, Copy, PartialEq, Eq, Structural)]
pub struct RepoConfig {
    /// Number of initial commits
    pub initial_commits: usize,
    /// Maximum file size in bytes
    pub max_file_size: usize,
    /// Number of branches to create
    pub num_branches: usize,
}

impl RepoConfig {
    /// Ten commits, files of at most one mebibyte, three branches.
    pub open spec fn standard() -> RepoConfig {
        RepoConfig { initial_commits: 10, max_file_size: 1048576, num_branches: 3 }
    }
}

impl Default for RepoConfig {
    fn default() -> (c: RepoConfig)
        ensures
            c == RepoConfig::standard(),
    {
        RepoConfig { initial_commits: 10, max_file_size: 1048576, num_branches: 3 }
    }
}

/// What every generator answers until generation is implemented.
pub open spec fn not_generated(r: Result<(), String>) -> bool {
    r is Err && r->Err_0@ == "Repository generation not implemented"@
}

fn refuse() -> (r: Result<(), String>)
    ensures
        not_generated(r),
{
    Err(String::from_str("Repository generation not implemented"))
}

/// Repository generator for creating synthetic test repositories.
#[derive(Debug, Clone, Copy)]
pub struct RepoGenerator {
    /// Repository configuration
    pub config: RepoConfig,
}

impl RepoGenerator {
    /// Create a new repository generator.
    pub fn new() -> (g: RepoGenerator)
        ensures
            g.config == RepoConfig::standard(),
    {
        RepoGenerator { config: RepoConfig::default() }
    }

    /// Create a new repository generator with custom config.
    pub fn with_config(config: RepoConfig) -> (g: RepoGenerator)
        ensures
            g.config == config,
    {
        RepoGenerator { config }
    }

    /// Generate a basic repository with a single commit.
    pub fn generate_basic(&self) -> (r: Result<(), String>)
        ensures
            not_generated(r),
    {
        refuse()
    }

    /// Generate a repository with merge commits.
    pub fn generate_with_merges(&self, num_merges: usize) -> (r: Result<(), String>)
        ensures
            not_generated(r),
    {
        refuse()
    }

    /// Generate a repository with renamed files.
    pub fn generate_with_renames(&self, num_renames: usize) -> (r: Result<(), String>)
        ensures
            not_generated(r),
    {
        refuse()
    }

    /// Generate a repository with conflicts.
    pub fn generate_with_conflicts(&self) -> (r: Result<(), String>)
        ensures
            not_generated(r),
    {
        refuse()
    }

    /// Generate a repository with large files.
    pub fn generate_with_large_files(&self, num_large_files: usize) -> (r: Result<(), String>)
        ensures
            not_generated(r),
    {
        refuse()
    }
}

impl Default for RepoGenerator {
    fn default() -> (g: RepoGenerator)
        ensures
            g.config == RepoConfig::standard(),
    {
        RepoGenerator::new()
    }
}

/// File generator for creating test files with various characteristics.
#[derive(Debug, Clone, Copy)]
pub struct FileGenerator;

impl FileGenerator {
    /// Generate a text file with the specified size.
    pub fn generate_text_file(size_bytes: usize) -> (s: String)
        ensures
            s@ == "Generated test content"@,
    {
        String::from_str("Generated test content")
    }

    /// Generate a binary file with the specified size.
    pub fn generate_binary_file(size_bytes: usize) -> (v: Vec<u8>)
        ensures
            v@ == seq![0u8, 1u8, 2u8, 3u8, 4u8],
    {
        let mut v: Vec<u8> = Vec::new();
        v.push(0);
        v.push(1);
        v.push(2);
        v.push(3);
        v.push(4);
        assert(v@ =~= seq![0u8, 1u8, 2u8, 3u8, 4u8]);
        v
    }

    /// Generate a file that will cause merge conflicts.
    pub fn generate_conflict_file() -> (s: String)
        ensures
            s@ == "line 1\nline 2\nline 3\n"@,
    {
        String::from_str("line 1\nline 2\nline 3\n")
    }
}

/// Edge case repository templates.
#[derive(Debug, Clone, Copy, PartialEq, Eq, Structural)]
pub enum RepoTemplate {
    /// Empty repository
    Empty,
    /// Single commit with one file
    SingleCommit,
    /// Linear history
    LinearHistory,
    /// History with merges
    MergeHistory,
    /// History with renames
    RenameHistory,
    /// History with conflicts
    ConflictHistory,
    /// Large repository
    LargeRepo,
}

impl RepoTemplate {
    /// How many commits, how large files and how many branches a template
    /// asks for. What a template does not set is as in the standard
    /// configuration.
    pub open spec fn spec_config(self) -> RepoConfig {
        let standard = RepoConfig::standard();
        match self {
            RepoTemplate::Empty => RepoConfig { initial_commits: 0, ..standard },
            RepoTemplate::SingleCommit => RepoConfig { initial_commits: 1, ..standard },
            RepoTemplate::LinearHistory => RepoConfig {
                initial_commits: 100,
                num_branches: 1,
                ..standard
            },
            RepoTemplate::MergeHistory => RepoConfig {
                initial_commits: 50,
                num_branches: 5,
                ..standard
            },
            RepoTemplate::RenameHistory => RepoConfig {
                initial_commits: 20,
                num_branches: 2,
                ..standard
            },
            RepoTemplate::ConflictHistory => RepoConfig {
                initial_commits: 10,
                num_branches: 2,
                ..standard
            },
            RepoTemplate::LargeRepo => RepoConfig {
                initial_commits: 1000,
                max_file_size: 10485760,
                num_branches: 10,
            },
        }
    }

    /// Get the configuration for this template.
    pub fn config(&self) -> (c: RepoConfig)
        ensures
            c == self.spec_config(),
    {
        let standard = RepoConfig::default();
        match self {
            RepoTemplate::Empty => RepoConfig { initial_commits: 0, ..standard },
            RepoTemplate::SingleCommit => RepoConfig { initial_commits: 1, ..standard },
            RepoTemplate::LinearHistory => RepoConfig {
                initial_commits: 100,
                num_branches: 1,
                ..standard
            },
            RepoTemplate::MergeHistory => RepoConfig {
                initial_commits: 50,
                num_branches: 5,
                ..standard
            },
            RepoTemplate::RenameHistory => RepoConfig {
                initial_commits: 20,
                num_branches: 2,
                ..standard
            },
            RepoTemplate::ConflictHistory => RepoConfig {
                initial_commits: 10,
                num_branches: 2,
                ..standard
            },
            RepoTemplate::LargeRepo => RepoConfig {
                initial_commits: 1000,
                max_file_size: 10485760,
                num_branches: 10,
            },
        }
    }
}

} // verus!
