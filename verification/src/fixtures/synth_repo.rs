//! A small synthetic repository with four tagged commits:
//! C0 adds `a.txt` and `dir/b.txt`, C1 modifies `a.txt` and adds `new.txt`,
//! C2 renames `dir/b.txt` to `dir/c.txt`, C3 deletes `new.txt` and adds the
//! binary `bin.dat`. The library says which steps make it; running them is
//! the caller's.

use crate::git::texts;
use vstd::prelude::*;
use vstd::string::StringExecFns;

verus! {

/// Why a fixture could not be made.
#[derive(Debug)]
pub enum FixtureError {
    /// A file operation failed
    Io(String),
    /// A command failed
    Git(String),
}

impl FixtureError {
    /// The text of this error.
    pub open spec fn rendering(self) -> Seq<char> {
        match self {
            FixtureError::Io(e) => "IO error: "@ + e@,
            FixtureError::Git(e) => "Git error: "@ + e@,
        }
    }

    /// The text of this error.
    pub fn message(&self) -> (s: String)
        ensures
            s@ == self.rendering(),
    {
        match self {
            FixtureError::Io(e) => {
                let mut s = String::from_str("IO error: ");
                s.append(e.as_str());
                s
            },
            FixtureError::Git(e) => {
                let mut s = String::from_str("Git error: ");
                s.append(e.as_str());
                s
            },
        }
    }
}

/// One step of making the fixture.
#[derive(Debug)]
pub enum FixtureStep {
    /// Run the command-line tool with these arguments inside the repository
    Git { args: Vec<String> },
    /// Make the directory at this path relative to the repository
    MakeDir { path: String },
    /// Write text to the file at this relative path
    WriteText { path: String, content: String },
    /// Write bytes to the file at this relative path
    WriteBinary { path: String, content: Vec<u8> },
}

/// A step as plain values.
pub enum StepModel {
    Git { args: Seq<Seq<char>> },
    MakeDir { path: Seq<char> },
    WriteText { path: Seq<char>, content: Seq<char> },
    WriteBinary { path: Seq<char>, content: Seq<u8> },
}

impl View for FixtureStep {
    type V = StepModel;

    open spec fn view(&self) -> StepModel {
        match *self {
            FixtureStep::Git { args } => StepModel::Git { args: texts(args@) },
            FixtureStep::MakeDir { path } => StepModel::MakeDir { path: path@ },
            FixtureStep::WriteText { path, content } => StepModel::WriteText {
                path: path@,
                content: content@,
            },
            FixtureStep::WriteBinary { path, content } => StepModel::WriteBinary {
                path: path@,
                content: content@,
            },
        }
    }
}

/// The steps that a list of steps holds.
pub open spec fn plan(steps: Seq<FixtureStep>) -> Seq<StepModel> {
    steps.map_values(|s: FixtureStep| s@)
}

/// The step that runs the tool with `args`.
pub open spec fn git(args: Seq<Seq<char>>) -> StepModel {
    StepModel::Git { args }
}

/// The step that writes `content` to `path`.
pub open spec fn write(path: Seq<char>, content: Seq<char>) -> StepModel {
    StepModel::WriteText { path, content }
}

/// The steps that stage everything, commit it with `message` and tag the
/// commit `tag`.
pub open spec fn commit_all(message: Seq<char>, tag: Seq<char>) -> Seq<StepModel> {
    seq![git(seq!["add"@, "."@]), git(seq!["commit"@, "-m"@, message]), git(seq!["tag"@, tag])]
}

/// The bytes of `bin.dat`: the byte values in order, twice over.
pub open spec fn binary_content() -> Seq<u8> {
    Seq::new(512, |i: int| (i % 256) as u8)
}

pub open spec fn a_txt_first() -> Seq<char> {
    "line 1\nline 2\nline 3\nline 4\nline 5\nline 6\nline 7\nline 8\nline 9\nline 10\nline 11\nline 12\nline 13\n"@
}

pub open spec fn a_txt_second() -> Seq<char> {
    "line 1\nline 2 modified\nline 3\nline 5\nline 6\nline 7\nline 8\nline 9\nline 10\nline 11\nline 12\nline 13\nnew line 14\nnew line 15\n"@
}

/// The steps of C0.
pub open spec fn c0_plan() -> Seq<StepModel> {
    seq![
        write("a.txt"@, a_txt_first()),
        StepModel::MakeDir { path: "dir"@ },
        write("dir/b.txt"@, "content of b\nline 2 of b\nline 3 of b\n"@),
    ] + commit_all("C0: initial commit"@, "C0"@)
}

/// The steps of C1.
pub open spec fn c1_plan() -> Seq<StepModel> {
    seq![
        write("a.txt"@, a_txt_second()),
        write("new.txt"@, "this is a new file\nwith some content\n"@),
    ] + commit_all("C1: modify + add"@, "C1"@)
}

/// The steps of C2.
pub open spec fn c2_plan() -> Seq<StepModel> {
    seq![
        git(seq!["mv"@, "dir/b.txt"@, "dir/c.txt"@]),
        git(seq!["commit"@, "-m"@, "C2: rename"@]),
        git(seq!["tag"@, "C2"@]),
    ]
}

/// The steps of C3.
pub open spec fn c3_plan() -> Seq<StepModel> {
    seq![
        git(seq!["rm"@, "new.txt"@]),
        StepModel::WriteBinary { path: "bin.dat"@, content: binary_content() },
    ] + commit_all("C3: delete + binary"@, "C3"@)
}

/// The steps that set the repository up before the first commit.
pub open spec fn setup_plan() -> Seq<StepModel> {
    seq![
        git(seq!["init"@]),
        git(seq!["config"@, "user.name"@, "Test User"@]),
        git(seq!["config"@, "user.email"@, "test@example.com"@]),
    ]
}

/// All steps, from an empty directory to the repository with its four
/// commits.
pub open spec fn full_plan() -> Seq<StepModel> {
    setup_plan() + c0_plan() + c1_plan() + c2_plan() + c3_plan()
}

fn git1(a: &str) -> (s: FixtureStep)
    ensures
        s@ == git(seq![a@]),
{
    let mut args: Vec<String> = Vec::new();
    args.push(String::from_str(a));
    assert(texts(args@) =~= seq![a@]);
    FixtureStep::Git { args }
}

fn git2(a: &str, b: &str) -> (s: FixtureStep)
    ensures
        s@ == git(seq![a@, b@]),
{
    let mut args: Vec<String> = Vec::new();
    args.push(String::from_str(a));
    args.push(String::from_str(b));
    assert(texts(args@) =~= seq![a@, b@]);
    FixtureStep::Git { args }
}

fn git3(a: &str, b: &str, c: &str) -> (s: FixtureStep)
    ensures
        s@ == git(seq![a@, b@, c@]),
{
    let mut args: Vec<String> = Vec::new();
    args.push(String::from_str(a));
    args.push(String::from_str(b));
    args.push(String::from_str(c));
    assert(texts(args@) =~= seq![a@, b@, c@]);
    FixtureStep::Git { args }
}

fn write_text(path: &str, content: &str) -> (s: FixtureStep)
    ensures
        s@ == write(path@, content@),
{
    FixtureStep::WriteText { path: String::from_str(path), content: String::from_str(content) }
}

/// Append the steps that stage everything, commit and tag.
fn push_commit_all(steps: &mut Vec<FixtureStep>, message: &str, tag: &str)
    ensures
        plan(final(steps)@) == plan(old(steps)@) + commit_all(message@, tag@),
{
    steps.push(git2("add", "."));
    steps.push(git3("commit", "-m", message));
    steps.push(git2("tag", tag));
    assert(plan(steps@) =~= plan(old(steps)@) + commit_all(message@, tag@));
}

/// The bytes of the binary file.
pub fn binary_data() -> (v: Vec<u8>)
    ensures
        v@ == binary_content(),
{
    let mut v: Vec<u8> = Vec::new();
    let mut i: usize = 0;
    while i < 512
        invariant
            i <= 512,
            v@.len() == i,
            forall|j: int| 0 <= j < i ==> v@[j] == (j % 256) as u8,
        decreases 512 - i,
    {
        v.push((i % 256) as u8);
        i += 1;
    }
    assert(v@ =~= binary_content());
    v
}

/// The synthetic repository at `path`.
#[derive(Debug)]
pub struct SynthRepo {
    pub path: String,
}

impl SynthRepo {
    /// Where the fixture called `name` lives below the workspace at
    /// `workspace_root`.
    pub open spec fn location(workspace_root: Seq<char>, name: Seq<char>) -> Seq<char> {
        workspace_root + "/target/rl_fixtures/"@ + name + "/repo"@
    }

    /// The fixture called `name` below the workspace at `workspace_root`.
    pub fn located(workspace_root: &str, name: &str) -> (repo: SynthRepo)
        ensures
            repo.path@ == Self::location(workspace_root@, name@),
    {
        let mut path = String::from_str(workspace_root);
        path.append("/target/rl_fixtures/");
        path.append(name);
        path.append("/repo");
        SynthRepo { path }
    }

    /// All steps that make the repository, in order.
    pub fn initialize(&self) -> (steps: Vec<FixtureStep>)
        ensures
            plan(steps@) == full_plan(),
    {
        let mut steps: Vec<FixtureStep> = Vec::new();
        steps.push(git1("init"));
        steps.push(git3("config", "user.name", "Test User"));
        steps.push(git3("config", "user.email", "test@example.com"));
        assert(plan(steps@) =~= setup_plan());
        let mut c0 = self.create_c0();
        let mut c1 = self.create_c1();
        let mut c2 = self.create_c2();
        let mut c3 = self.create_c3();
        let ghost s0 = steps@;
        let ghost p0 = c0@;
        steps.append(&mut c0);
        assert(plan(steps@) =~= plan(s0) + plan(p0));
        let ghost s1 = steps@;
        let ghost p1 = c1@;
        steps.append(&mut c1);
        assert(plan(steps@) =~= plan(s1) + plan(p1));
        let ghost s2 = steps@;
        let ghost p2 = c2@;
        steps.append(&mut c2);
        assert(plan(steps@) =~= plan(s2) + plan(p2));
        let ghost s3 = steps@;
        let ghost p3 = c3@;
        steps.append(&mut c3);
        assert(plan(steps@) =~= plan(s3) + plan(p3));
        steps
    }

    /// The steps of C0: `a.txt` and `dir/b.txt` are added.
    pub fn create_c0(&self) -> (steps: Vec<FixtureStep>)
        ensures
            plan(steps@) == c0_plan(),
    {
        let mut steps: Vec<FixtureStep> = Vec::new();
        steps.push(
            write_text(
                "a.txt",
                "line 1\nline 2\nline 3\nline 4\nline 5\nline 6\nline 7\nline 8\nline 9\nline 10\nline 11\nline 12\nline 13\n",
            ),
        );
        steps.push(FixtureStep::MakeDir { path: String::from_str("dir") });
        steps.push(write_text("dir/b.txt", "content of b\nline 2 of b\nline 3 of b\n"));
        assert(plan(steps@) =~= seq![
            write("a.txt"@, a_txt_first()),
            StepModel::MakeDir { path: "dir"@ },
            write("dir/b.txt"@, "content of b\nline 2 of b\nline 3 of b\n"@),
        ]);
        push_commit_all(&mut steps, "C0: initial commit", "C0");
        steps
    }

    /// The steps of C1: `a.txt` is modified and `new.txt` added.
    pub fn create_c1(&self) -> (steps: Vec<FixtureStep>)
        ensures
            plan(steps@) == c1_plan(),
    {
        let mut steps: Vec<FixtureStep> = Vec::new();
        steps.push(
            write_text(
                "a.txt",
                "line 1\nline 2 modified\nline 3\nline 5\nline 6\nline 7\nline 8\nline 9\nline 10\nline 11\nline 12\nline 13\nnew line 14\nnew line 15\n",
            ),
        );
        steps.push(write_text("new.txt", "this is a new file\nwith some content\n"));
        assert(plan(steps@) =~= seq![
            write("a.txt"@, a_txt_second()),
            write("new.txt"@, "this is a new file\nwith some content\n"@),
        ]);
        push_commit_all(&mut steps, "C1: modify + add", "C1");
        steps
    }

    /// The steps of C2: `dir/b.txt` is renamed to `dir/c.txt`.
    pub fn create_c2(&self) -> (steps: Vec<FixtureStep>)
        ensures
            plan(steps@) == c2_plan(),
    {
        let mut steps: Vec<FixtureStep> = Vec::new();
        steps.push(git3("mv", "dir/b.txt", "dir/c.txt"));
        steps.push(git3("commit", "-m", "C2: rename"));
        steps.push(git2("tag", "C2"));
        assert(plan(steps@) =~= c2_plan());
        steps
    }

    /// The steps of C3: `new.txt` is deleted and the binary `bin.dat` added.
    pub fn create_c3(&self) -> (steps: Vec<FixtureStep>)
        ensures
            plan(steps@) == c3_plan(),
    {
        let mut steps: Vec<FixtureStep> = Vec::new();
        steps.push(git2("rm", "new.txt"));
        steps.push(
            FixtureStep::WriteBinary { path: String::from_str("bin.dat"), content: binary_data() },
        );
        assert(plan(steps@) =~= seq![
            git(seq!["rm"@, "new.txt"@]),
            StepModel::WriteBinary { path: "bin.dat"@, content: binary_content() },
        ]);
        push_commit_all(&mut steps, "C3: delete + binary", "C3");
        steps
    }

    /// The error for a command that exited with failure: the command line
    /// and what it wrote to standard error.
    pub fn command_failed(command_line: &str, stderr: &str) -> (e: FixtureError)
        ensures
            e matches FixtureError::Git(message) && message@ == "git "@ + command_line@
                + " failed: "@ + stderr@,
    {
        let mut message = String::from_str("git ");
        message.append(command_line);
        message.append(" failed: ");
        message.append(stderr);
        FixtureError::Git(message)
    }
}

} // verus!
