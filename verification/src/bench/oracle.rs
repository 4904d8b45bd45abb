//! Oracle helpers: normalizing and comparing line-oriented output.

use crate::engine::telemetry::{decimal, push_decimal};
use crate::git::backend::{lossy_text, utf8_lossy};
use crate::git::texts;
use crate::text::{cut, from_chars, line_ranges, lines, ranges_within, to_chars, trim, trim_range};
use vstd::prelude::*;
use vstd::string::StringExecFns;

verus! {

/// How two lists of lines differ.
#[derive(Debug)]
pub struct Diff {
    pub expected_len: usize,
    pub actual_len: usize,
    pub first_mismatch: Option<usize>,
    pub expected_sample: Vec<String>,
    pub actual_sample: Vec<String>,
}

/// How many lines a sample holds at most.
pub const SAMPLE_LINES: usize = 10;

/// Index of the first of the first `n` places where `a` and `b` differ.
pub open spec fn first_difference(a: Seq<Seq<char>>, b: Seq<Seq<char>>, n: int) -> Option<int>
    decreases n,
{
    if n <= 0 {
        None
    } else {
        match first_difference(a, b, n - 1) {
            Some(i) => Some(i),
            None => if a[n - 1] != b[n - 1] {
                Some(n - 1)
            } else {
                None
            },
        }
    }
}

/// Where two lists of equal length differ first; `None` for lists of
/// different length.
pub open spec fn mismatch(a: Seq<Seq<char>>, b: Seq<Seq<char>>) -> Option<int> {
    if a.len() != b.len() {
        None
    } else {
        first_difference(a, b, a.len() as int)
    }
}

/// The first lines of `v`, at most `SAMPLE_LINES` of them.
pub open spec fn sample_of(v: Seq<String>) -> Seq<String> {
    if v.len() <= SAMPLE_LINES {
        v
    } else {
        v.take(SAMPLE_LINES as int)
    }
}

/// `first_difference` finds the first place where the lists differ, and
/// none exactly when they agree on the first `n` places.
pub proof fn lemma_first_difference(a: Seq<Seq<char>>, b: Seq<Seq<char>>, n: int)
    requires
        0 <= n <= a.len(),
        n <= b.len(),
    ensures
        match first_difference(a, b, n) {
            Some(i) => 0 <= i < n && a[i] != b[i] && forall|j: int| 0 <= j < i ==> a[j] == b[j],
            None => forall|j: int| 0 <= j < n ==> a[j] == b[j],
        },
    decreases n,
{
    if n > 0 {
        lemma_first_difference(a, b, n - 1);
    }
}

fn sample(v: &[String]) -> (r: Vec<String>)
    ensures
        r@ == sample_of(v@),
{
    let mut r: Vec<String> = Vec::new();
    let mut i: usize = 0;
    while i < v.len() && i < SAMPLE_LINES
        invariant
            i <= v.len(),
            i <= SAMPLE_LINES,
            r@ == v@.take(i as int),
        decreases v.len() - i,
    {
        r.push(v[i].clone());
        assert(v@.take(i + 1) =~= v@.take(i as int).push(v@[i as int]));
        i += 1;
    }
    assert(v@.len() <= SAMPLE_LINES ==> v@.take(i as int) =~= v@);
    r
}

/// Compare the lines that were expected with the lines that came. They match
/// when both lists hold the same texts in the same order. Where they do not,
/// the difference tells both lengths, the first place where lists of equal
/// length differ, and the first lines of each list.
pub fn compare_lines(expected: &[String], actual: &[String]) -> (r: Result<(), Diff>)
    ensures
        match r {
            Ok(_) => texts(expected@) == texts(actual@),
            Err(d) => texts(expected@) != texts(actual@) && d.expected_len == expected@.len()
                && d.actual_len == actual@.len() && (match d.first_mismatch {
                Some(i) => mismatch(texts(expected@), texts(actual@)) == Some(i as int),
                None => mismatch(texts(expected@), texts(actual@)) is None,
            }) && d.expected_sample@ == sample_of(expected@) && d.actual_sample@ == sample_of(
                actual@,
            ),
        },
{
    if expected.len() != actual.len() {
        assert(texts(expected@).len() != texts(actual@).len());
        return Err(
            Diff {
                expected_len: expected.len(),
                actual_len: actual.len(),
                first_mismatch: None,
                expected_sample: sample(expected),
                actual_sample: sample(actual),
            },
        );
    }
    let mut i: usize = 0;
    while i < expected.len()
        invariant
            i <= expected.len(),
            expected.len() == actual.len(),
            first_difference(texts(expected@), texts(actual@), i as int) is None,
        decreases expected.len() - i,
    {
        if expected[i] != actual[i] {
            proof {
                let a = texts(expected@);
                let b = texts(actual@);
                assert(a[i as int] != b[i as int]);
                lemma_difference_stays(a, b, i + 1, a.len() as int);
            }
            return Err(
                Diff {
                    expected_len: expected.len(),
                    actual_len: actual.len(),
                    first_mismatch: Some(i),
                    expected_sample: sample(expected),
                    actual_sample: sample(actual),
                },
            );
        }
        i += 1;
    }
    proof {
        lemma_first_difference(texts(expected@), texts(actual@), i as int);
        assert(texts(expected@) =~= texts(actual@));
    }
    Ok(())
}

/// Once a difference is found among the first `n` places, looking further
/// finds the same one.
pub proof fn lemma_difference_stays(a: Seq<Seq<char>>, b: Seq<Seq<char>>, n: int, m: int)
    requires
        0 <= n <= m,
        first_difference(a, b, n) is Some,
    ensures
        first_difference(a, b, m) == first_difference(a, b, n),
    decreases m - n,
{
    if n < m {
        lemma_difference_stays(a, b, n, m - 1);
    }
}

/// The trimmed lines of a list of lines, without those that are blank.
pub open spec fn trimmed_lines(all: Seq<Seq<char>>) -> Seq<Seq<char>>
    decreases all.len(),
{
    if all.len() == 0 {
        Seq::empty()
    } else if trim(all.last()).len() == 0 {
        trimmed_lines(all.drop_last())
    } else {
        trimmed_lines(all.drop_last()).push(trim(all.last()))
    }
}

/// The lines of `s`, each without leading and trailing white space; lines
/// that are empty after that are left out.
pub fn normalize_lines(s: &str) -> (r: Vec<String>)
    ensures
        texts(r@) == trimmed_lines(lines(s@)),
{
    let chars = to_chars(s);
    let text = chars.as_slice();
    let ranges = line_ranges(text);
    let ghost all = lines(s@);
    let mut r: Vec<String> = Vec::new();
    let mut i: usize = 0;
    assert(all.take(0) =~= Seq::<Seq<char>>::empty());
    assert(texts(r@) =~= Seq::<Seq<char>>::empty());
    while i < ranges.len()
        invariant
            i <= ranges.len(),
            text@ == s@,
            ranges_within(ranges@, text@.len()),
            cut(text@, ranges@) == all,
            texts(r@) == trimmed_lines(all.take(i as int)),
        decreases ranges.len() - i,
    {
        let (start, end) = ranges[i];
        assert(all[i as int] == text@.subrange(start as int, end as int));
        assert(all.take(i + 1).drop_last() =~= all.take(i as int));
        assert(all.take(i + 1).last() == all[i as int]);
        let line = &text[start..end];
        let (from, to) = trim_range(line);
        if to > from {
            let ghost before = r@;
            r.push(from_chars(&line[from..to]));
            assert(texts(r@) =~= texts(before).push(trim(all[i as int])));
        }
        i += 1;
    }
    assert(all.take(i as int) =~= all);
    r
}

/// `line` with every backslash turned into a slash.
pub open spec fn with_slashes(line: Seq<char>) -> Seq<char> {
    line.map_values(
        |c: char|
            if c == '\\' {
                '/'
            } else {
                c
            },
    )
}

/// Every line of `all` with its backslashes turned into slashes.
pub open spec fn all_with_slashes(all: Seq<Seq<char>>) -> Seq<Seq<char>> {
    all.map_values(|line: Seq<char>| with_slashes(line))
}

fn slashed(line: &str) -> (r: String)
    ensures
        r@ == with_slashes(line@),
{
    let chars = to_chars(line);
    let mut r = String::new();
    let mut i: usize = 0;
    while i < chars.len()
        invariant
            i <= chars.len(),
            chars@ == line@,
            r@ == with_slashes(chars@.take(i as int)),
        decreases chars.len() - i,
    {
        let c = chars[i];
        if c == '\\' {
            r.push('/');
        } else {
            r.push(c);
        }
        assert(with_slashes(chars@.take(i + 1)) =~= with_slashes(chars@.take(i as int)).push(
            with_slashes(chars@)[i as int],
        ));
        i += 1;
    }
    assert(chars@.take(i as int) =~= chars@);
    r
}

/// The lines with path separators written as slashes.
pub fn normalize_paths(lines: Vec<String>) -> (r: Vec<String>)
    ensures
        texts(r@) == all_with_slashes(texts(lines@)),
{
    let mut r: Vec<String> = Vec::new();
    let mut i: usize = 0;
    while i < lines.len()
        invariant
            i <= lines.len(),
            texts(r@) == all_with_slashes(texts(lines@).take(i as int)),
        decreases lines.len() - i,
    {
        let ghost before = r@;
        r.push(slashed(lines[i].as_str()));
        assert(texts(r@) =~= texts(before).push(with_slashes(lines@[i as int]@)));
        assert(all_with_slashes(texts(lines@).take(i + 1)) =~= all_with_slashes(
            texts(lines@).take(i as int),
        ).push(with_slashes(lines@[i as int]@)));
        i += 1;
    }
    assert(texts(lines@).take(i as int) =~= texts(lines@));
    r
}

/// Whether `a` comes before `b` or equals it in dictionary order by
/// character code, which is the order of the strings themselves.
pub open spec fn text_le(a: Seq<char>, b: Seq<char>) -> bool
    decreases a.len(),
{
    if a.len() == 0 {
        true
    } else if b.len() == 0 {
        false
    } else if a[0] != b[0] {
        a[0] < b[0]
    } else {
        text_le(a.skip(1), b.skip(1))
    }
}

/// Whether every text of `s` comes before or equals every later one.
pub open spec fn sorted(s: Seq<Seq<char>>) -> bool {
    forall|i: int, j: int| 0 <= i < j < s.len() ==> text_le(#[trigger] s[i], #[trigger] s[j])
}

/// Of two texts one comes before or equals the other.
pub proof fn lemma_text_le_total(a: Seq<char>, b: Seq<char>)
    ensures
        text_le(a, b) || text_le(b, a),
    decreases a.len(),
{
    if a.len() > 0 && b.len() > 0 && a[0] == b[0] {
        lemma_text_le_total(a.skip(1), b.skip(1));
    }
}

/// The dictionary order is transitive.
pub proof fn lemma_text_le_transitive(a: Seq<char>, b: Seq<char>, c: Seq<char>)
    requires
        text_le(a, b),
        text_le(b, c),
    ensures
        text_le(a, c),
    decreases a.len(),
{
    if a.len() > 0 && b.len() > 0 && c.len() > 0 && a[0] == b[0] && b[0] == c[0] {
        lemma_text_le_transitive(a.skip(1), b.skip(1), c.skip(1));
    }
}

/// Whether the text of `a` comes before or equals that of `b`.
pub fn comes_first(a: &str, b: &str) -> (r: bool)
    ensures
        r == text_le(a@, b@),
{
    let x = to_chars(a);
    let y = to_chars(b);
    let mut i: usize = 0;
    assert(x@.skip(0) =~= x@);
    assert(y@.skip(0) =~= y@);
    while i < x.len() && i < y.len()
        invariant
            i <= x.len(),
            i <= y.len(),
            x@ == a@,
            y@ == b@,
            text_le(x@.skip(i as int), y@.skip(i as int)) == text_le(x@, y@),
        decreases x.len() - i,
    {
        assert(x@.skip(i as int)[0] == x@[i as int]);
        assert(y@.skip(i as int)[0] == y@[i as int]);
        assert(x@.skip(i as int).skip(1) =~= x@.skip(i + 1));
        assert(y@.skip(i as int).skip(1) =~= y@.skip(i + 1));
        if x[i] != y[i] {
            assert(text_le(x@.skip(i as int), y@.skip(i as int)) == (x@[i as int] < y@[i as int]));
            return x[i] < y[i];
        }
        i += 1;
    }
    i >= x.len()
}

/// The lines in dictionary order. Lines that are equal keep their order.
pub fn sort_stable(lines: Vec<String>) -> (r: Vec<String>)
    ensures
        sorted(texts(r@)),
        texts(r@).to_multiset() == texts(lines@).to_multiset(),
        r@.len() == lines@.len(),
{
    let mut r: Vec<String> = Vec::new();
    let mut i: usize = 0;
    assert(texts(lines@).take(0) =~= Seq::<Seq<char>>::empty());
    assert(texts(r@) =~= Seq::<Seq<char>>::empty());
    while i < lines.len()
        invariant
            i <= lines.len(),
            r@.len() == i,
            sorted(texts(r@)),
            texts(r@).to_multiset() == texts(lines@).take(i as int).to_multiset(),
        decreases lines.len() - i,
    {
        let line = lines[i].clone();
        let mut pos: usize = 0;
        while pos < r.len() && comes_first(r[pos].as_str(), line.as_str())
            invariant
                pos <= r.len(),
                forall|k: int| 0 <= k < pos ==> text_le(#[trigger] texts(r@)[k], line@),
            decreases r.len() - pos,
        {
            pos += 1;
        }
        let ghost before = texts(r@);
        r.insert(pos, line);
        proof {
            let after = texts(r@);
            assert(after =~= before.insert(pos as int, line@));
            assert forall|a: int, b: int| 0 <= a < b < after.len() implies text_le(
                #[trigger] after[a],
                #[trigger] after[b],
            ) by {
                if b < pos {
                    assert(after[a] == before[a] && after[b] == before[b]);
                } else if b == pos {
                    assert(after[a] == before[a]);
                } else if a == pos {
                    assert(after[b] == before[b - 1]);
                    lemma_text_le_total(before[pos as int], line@);
                    if b - 1 > pos {
                        assert(text_le(before[pos as int], before[b - 1]));
                        lemma_text_le_transitive(line@, before[pos as int], before[b - 1]);
                    }
                } else if a < pos {
                    assert(after[a] == before[a] && after[b] == before[b - 1]);
                } else {
                    assert(after[a] == before[a - 1] && after[b] == before[b - 1]);
                }
            }
            vstd::seq_lib::to_multiset_insert(before, pos as int, line@);
            assert(texts(lines@).take(i + 1) =~= texts(lines@).take(i as int).push(line@));
            vstd::seq_lib::to_multiset_build(texts(lines@).take(i as int), line@);
        }
        i += 1;
    }
    assert(texts(lines@).take(i as int) =~= texts(lines@));
    r
}

/// Why the oracle could not answer.
#[derive(Debug)]
pub enum OracleError {
    /// The command-line tool is not installed
    GitNotFound,
    /// The command exited with a status other than zero
    GitFailed { status: i32, stdout: String, stderr: String },
    /// The command could not be run
    Io(String),
    /// The output was not text
    Utf8(String),
}

/// The decimal numeral of `n`, with a minus sign where it is negative.
pub open spec fn signed_decimal(n: int) -> Seq<char> {
    if n < 0 {
        seq!['-'] + decimal((-n) as nat)
    } else {
        decimal(n as nat)
    }
}

impl OracleError {
    /// The text of this error.
    pub open spec fn rendering(self) -> Seq<char> {
        match self {
            OracleError::GitNotFound => "git command not found"@,
            OracleError::GitFailed { status, stdout, stderr } => {
                "git command failed with status "@ + signed_decimal(status as int) + ": stdout="@
                    + stdout@ + ", stderr="@ + stderr@
            },
            OracleError::Io(e) => "IO error: "@ + e@,
            OracleError::Utf8(e) => "UTF-8 error: "@ + e@,
        }
    }

    /// The text of this error.
    pub fn message(&self) -> (s: String)
        ensures
            s@ == self.rendering(),
    {
        match self {
            OracleError::GitNotFound => String::from_str("git command not found"),
            OracleError::GitFailed { status, stdout, stderr } => {
                let mut s = String::from_str("git command failed with status ");
                if *status < 0 {
                    s.push('-');
                    let magnitude: i64 = -(*status as i64);
                    push_decimal(&mut s, magnitude as u128);
                } else {
                    push_decimal(&mut s, *status as u128);
                }
                assert(s@ =~= "git command failed with status "@ + signed_decimal(*status as int));
                s.append(": stdout=");
                s.append(stdout.as_str());
                s.append(", stderr=");
                s.append(stderr.as_str());
                s
            },
            OracleError::Io(e) => {
                let mut s = String::from_str("IO error: ");
                s.append(e.as_str());
                s
            },
            OracleError::Utf8(e) => {
                let mut s = String::from_str("UTF-8 error: ");
                s.append(e.as_str());
                s
            },
        }
    }
}

/// What a run of the command-line tool printed.
#[derive(Debug)]
pub struct GitOutput {
    pub stdout: String,
    pub stderr: String,
    pub status: i32,
}

/// The command-line tool, run inside one repository.
#[derive(Debug)]
pub struct GitCli {
    repo_path: String,
}

impl GitCli {
    /// The path of the repository that commands run in.
    pub closed spec fn repo(&self) -> Seq<char> {
        self.repo_path@
    }

    pub fn new(repo_path: &str) -> (cli: GitCli)
        ensures
            cli.repo() == repo_path@,
    {
        GitCli { repo_path: String::from_str(repo_path) }
    }

    /// The path of the repository that commands run in.
    pub fn repo_path(&self) -> (path: &str)
        ensures
            path@ == self.repo(),
    {
        self.repo_path.as_str()
    }

    /// What a finished run amounts to: its output when it exited with status
    /// zero, else the failure with everything it printed. A run that ended
    /// without an exit status counts as status -1.
    pub fn outcome(&self, code: Option<i32>, stdout: &[u8], stderr: &[u8]) -> (r: Result<
        GitOutput,
        OracleError,
    >)
        ensures
            ({
                let status = match code {
                    Some(c) => c,
                    None => -1i32,
                };
                match r {
                    Ok(out) => status == 0 && out.status == 0 && out.stdout@ == lossy_text(stdout@)
                        && out.stderr@ == lossy_text(stderr@),
                    Err(e) => {
                        &&& status != 0
                        &&& e matches OracleError::GitFailed { status: s, stdout: o, stderr: x }
                        &&& s == status
                        &&& o@ == lossy_text(stdout@)
                        &&& x@ == lossy_text(stderr@)
                    },
                }
            }),
    {
        let status: i32 = match code {
            Some(c) => c,
            None => -1,
        };
        let stdout = utf8_lossy(stdout);
        let stderr = utf8_lossy(stderr);
        if status == 0 {
            Ok(GitOutput { stdout, stderr, status })
        } else {
            Err(OracleError::GitFailed { status, stdout, stderr })
        }
    }
}

} // verus!
