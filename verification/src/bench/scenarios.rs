//! Benchmark scenarios: deterministic requests that stand for typical UI
//! interactions.

use crate::api::bounds::{Cursor, MaxBytes, MaxHunks, PageSize};
use crate::api::paging::Paging;
use crate::api::request::{DiffSummaryRequest, LogRequest, Request, RequestPayload, StatusRequest};
use crate::api::version::ApiVersion;
use vstd::prelude::*;
use vstd::string::StringExecFns;

verus! {

/// A benchmark scenario with deterministic inputs
#[derive(Debug, Clone)]
pub struct BenchmarkScenario {
    /// Scenario name
    pub name: String,
    /// Human-readable description
    pub description: String,
    /// The request to execute
    pub request: Request,
}

/// Results from running a benchmark scenario
#[derive(Debug, Clone)]
pub struct BenchmarkResult {
    /// Scenario name
    pub scenario: String,
    /// Wall-clock time in nanoseconds
    pub wall_time_ns: u64,
    /// Whether the operation succeeded (even if "not implemented")
    pub success: bool,
    /// Error message if failed
    pub error: Option<String>,
}

/// Dataset information for benchmark results
#[derive(Debug, Clone)]
pub struct DatasetInfo {
    /// Dataset name
    pub name: String,
    /// Repository URL
    pub url: String,
    /// Revision (tag/commit)
    pub rev: String,
    /// Local path
    pub path: String,
    /// Whether the dataset exists locally
    pub exists: bool,
}

/// Collection of benchmark results from a run
#[derive(Debug)]
pub struct BenchmarkRun {
    /// Timestamp of the run
    pub timestamp: String,
    /// Dataset used
    pub dataset: String,
    /// Results for each scenario
    pub results: Vec<BenchmarkResult>,
}

/// The names of the scenarios, in the order in which they are generated.
pub open spec fn names() -> Seq<Seq<char>> {
    seq!["engine_overhead"@, "status"@, "log_page"@, "diff_summary"@]
}

/// Whether `s` is the scenario called `name` with request id `id`.
pub open spec fn is_scenario(
    s: BenchmarkScenario,
    name: Seq<char>,
    description: Seq<char>,
    id: Seq<char>,
) -> bool {
    &&& s.name@ == name
    &&& s.description@ == description
    &&& s.request.id@ == id
    &&& s.request.version == ApiVersion::V0
}

/// Whether `scenarios` are the four scenarios for the repository at
/// `repo_path`: two status requests, a log page of 200 commits from the
/// start, and a diff summary of the last ten commits.
pub open spec fn are_scenarios(scenarios: Seq<BenchmarkScenario>, repo_path: Seq<char>) -> bool {
    &&& scenarios.len() == 4
    &&& is_scenario(
        scenarios[0],
        "engine_overhead"@,
        "Measure engine overhead with minimal Status request"@,
        "bench-engine-overhead"@,
    )
    &&& scenarios[0].request.payload matches RequestPayload::Status(first)
    &&& first.repo_path@ == repo_path
    &&& is_scenario(scenarios[1], "status"@, "Get repository status"@, "bench-status"@)
    &&& scenarios[1].request.payload matches RequestPayload::Status(second)
    &&& second.repo_path@ == repo_path
    &&& is_scenario(
        scenarios[2],
        "log_page"@,
        "Get commit log with pagination (200 commits)"@,
        "bench-log"@,
    )
    &&& scenarios[2].request.payload matches RequestPayload::Log(log)
    &&& log.repo_path@ == repo_path
    &&& log.paging.page_size.value() == 200
    &&& log.paging.cursor@ == Seq::<char>::empty()
    &&& log.revision_range is None
    &&& is_scenario(
        scenarios[3],
        "diff_summary"@,
        "Get diff summary between two specific commits"@,
        "bench-diff-summary"@,
    )
    &&& scenarios[3].request.payload matches RequestPayload::DiffSummary(diff)
    &&& diff.repo_path@ == repo_path
    &&& diff.from matches Some(from)
    &&& from@ == "HEAD~10"@
    &&& diff.to matches Some(to)
    &&& to@ == "HEAD"@
    &&& diff.max_bytes.value() == 1048576
    &&& diff.max_hunks.value() == 1000
}

fn scenario(name: &str, description: &str, id: &str, payload: RequestPayload) -> (s:
    BenchmarkScenario)
    ensures
        is_scenario(s, name@, description@, id@),
        s.request.payload == payload,
{
    BenchmarkScenario {
        name: String::from_str(name),
        description: String::from_str(description),
        request: Request { version: ApiVersion::V0, id: String::from_str(id), payload },
    }
}

/// Generate benchmark scenarios for a given repository path
pub fn generate_scenarios(repo_path: &str) -> (r: Vec<BenchmarkScenario>)
    ensures
        are_scenarios(r@, repo_path@),
{
    let page_size = match PageSize::try_from(200u32) {
        Ok(p) => p,
        Err(_) => {
            assert(false);
            return Vec::new();
        },
    };
    let max_bytes = match MaxBytes::try_from(1048576u64) {
        Ok(p) => p,
        Err(_) => {
            assert(false);
            return Vec::new();
        },
    };
    let max_hunks = match MaxHunks::try_from(1000u32) {
        Ok(p) => p,
        Err(_) => {
            assert(false);
            return Vec::new();
        },
    };
    let mut r: Vec<BenchmarkScenario> = Vec::new();
    r.push(
        scenario(
            "engine_overhead",
            "Measure engine overhead with minimal Status request",
            "bench-engine-overhead",
            RequestPayload::Status(StatusRequest { repo_path: String::from_str(repo_path) }),
        ),
    );
    r.push(
        scenario(
            "status",
            "Get repository status",
            "bench-status",
            RequestPayload::Status(StatusRequest { repo_path: String::from_str(repo_path) }),
        ),
    );
    r.push(
        scenario(
            "log_page",
            "Get commit log with pagination (200 commits)",
            "bench-log",
            RequestPayload::Log(
                LogRequest {
                    repo_path: String::from_str(repo_path),
                    paging: Paging { page_size, cursor: Cursor::initial() },
                    revision_range: None,
                },
            ),
        ),
    );
    r.push(
        scenario(
            "diff_summary",
            "Get diff summary between two specific commits",
            "bench-diff-summary",
            RequestPayload::DiffSummary(
                DiffSummaryRequest {
                    repo_path: String::from_str(repo_path),
                    from: Some(String::from_str("HEAD~10")),
                    to: Some(String::from_str("HEAD")),
                    max_bytes,
                    max_hunks,
                },
            ),
        ),
    );
    r
}

/// Get the names of all available scenarios
pub fn scenario_names() -> (r: Vec<String>)
    ensures
        crate::git::texts(r@) == names(),
{
    let mut r: Vec<String> = Vec::new();
    r.push(String::from_str("engine_overhead"));
    r.push(String::from_str("status"));
    r.push(String::from_str("log_page"));
    r.push(String::from_str("diff_summary"));
    assert(crate::git::texts(r@) =~= names());
    r
}

/// Whether a run takes the scenario called `name`: with a filter, the
/// scenarios that the filter names; without one, `engine_overhead` alone.
pub open spec fn is_wanted(name: Seq<char>, filter: Option<Seq<Seq<char>>>) -> bool {
    match filter {
        Some(wanted) => wanted.contains(name),
        None => name == "engine_overhead"@,
    }
}

/// The scenarios of `all` that a run takes, in their order.
pub open spec fn selected(all: Seq<BenchmarkScenario>, filter: Option<Seq<Seq<char>>>) -> Seq<
    BenchmarkScenario,
>
    decreases all.len(),
{
    if all.len() == 0 {
        Seq::empty()
    } else if is_wanted(all.last().name@, filter) {
        selected(all.drop_last(), filter).push(all.last())
    } else {
        selected(all.drop_last(), filter)
    }
}

/// The scenarios that a list of references points at.
pub open spec fn pointed(refs: Seq<&BenchmarkScenario>) -> Seq<BenchmarkScenario> {
    refs.map_values(|r: &BenchmarkScenario| *r)
}

/// The texts of an optional list of names.
pub open spec fn filter_texts(filter: Option<&[String]>) -> Option<Seq<Seq<char>>> {
    match filter {
        Some(names) => Some(crate::git::texts(names@)),
        None => None,
    }
}

fn listed(names: &[String], name: &String) -> (r: bool)
    ensures
        r == crate::git::texts(names@).contains(name@),
{
    let mut i: usize = 0;
    while i < names.len()
        invariant
            i <= names.len(),
            forall|j: int| 0 <= j < i ==> crate::git::texts(names@)[j] != name@,
        decreases names.len() - i,
    {
        if names[i] == *name {
            assert(crate::git::texts(names@)[i as int] == name@);
            return true;
        }
        i += 1;
    }
    false
}

/// The scenarios of `all` that a run takes: those that `filter` names, or
/// `engine_overhead` alone where there is no filter.
pub fn select_scenarios<'a>(all: &'a [BenchmarkScenario], filter: Option<&[String]>) -> (r: Vec<
    &'a BenchmarkScenario,
>)
    ensures
        pointed(r@) == selected(all@, filter_texts(filter)),
{
    let fallback = String::from_str("engine_overhead");
    let mut r: Vec<&'a BenchmarkScenario> = Vec::new();
    let mut i: usize = 0;
    assert(all@.take(0) =~= Seq::<BenchmarkScenario>::empty());
    assert(pointed(r@) =~= Seq::<BenchmarkScenario>::empty());
    while i < all.len()
        invariant
            i <= all.len(),
            fallback@ == "engine_overhead"@,
            pointed(r@) == selected(all@.take(i as int), filter_texts(filter)),
        decreases all.len() - i,
    {
        assert(all@.take(i + 1).drop_last() =~= all@.take(i as int));
        assert(all@.take(i + 1).last() == all@[i as int]);
        let wanted = match filter {
            Some(names) => listed(names, &all[i].name),
            None => all[i].name == fallback,
        };
        if wanted {
            let ghost before = r@;
            r.push(&all[i]);
            assert(pointed(r@) =~= pointed(before).push(all@[i as int]));
        }
        i += 1;
    }
    assert(all@.take(i as int) =~= all@);
    r
}

/// Index of the first of the first `n` scenarios that is called `name`.
pub open spec fn first_called(scenarios: Seq<BenchmarkScenario>, name: Seq<char>, n: int) -> Option<
    int,
>
    decreases n,
{
    if n <= 0 {
        None
    } else {
        match first_called(scenarios, name, n - 1) {
            Some(i) => Some(i),
            None => if scenarios[n - 1].name@ == name {
                Some(n - 1)
            } else {
                None
            },
        }
    }
}

/// Once a scenario is found among the first `n`, looking further finds the
/// same one.
pub proof fn lemma_first_called_stays(
    scenarios: Seq<BenchmarkScenario>,
    name: Seq<char>,
    n: int,
    m: int,
)
    requires
        0 <= n <= m,
        first_called(scenarios, name, n) is Some,
    ensures
        first_called(scenarios, name, m) == first_called(scenarios, name, n),
    decreases m - n,
{
    if n < m {
        lemma_first_called_stays(scenarios, name, n, m - 1);
    }
}

/// Find a scenario by name
pub fn find_scenario<'a>(scenarios: &'a [BenchmarkScenario], name: &str) -> (r: Option<
    &'a BenchmarkScenario,
>)
    ensures
        match r {
            Some(s) => {
                &&& first_called(scenarios@, name@, scenarios@.len() as int) matches Some(i)
                &&& scenarios@[i] == *s
            },
            None => first_called(scenarios@, name@, scenarios@.len() as int) is None,
        },
{
    let wanted = String::from_str(name);
    let mut i: usize = 0;
    while i < scenarios.len()
        invariant
            i <= scenarios.len(),
            wanted@ == name@,
            first_called(scenarios@, name@, i as int) is None,
        decreases scenarios.len() - i,
    {
        if scenarios[i].name == wanted {
            proof {
                lemma_first_called_stays(scenarios@, name@, i + 1, scenarios@.len() as int);
            }
            return Some(&scenarios[i]);
        }
        i += 1;
    }
    None
}

} // verus!
