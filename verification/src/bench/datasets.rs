//! Benchmark datasets: pinned external repositories.

use vstd::prelude::*;
use vstd::string::StringExecFns;

verus! {

/// Dataset configuration from the manifest.
#[derive(Debug, Clone)]
pub struct Dataset {
    /// Unique dataset name
    pub name: String,
    /// Human-readable description
    pub description: String,
    /// Git repository URL
    pub url: String,
    /// Pinned revision (tag, branch, or SHA)
    pub revision: String,
    /// Size category for informational purposes
    pub size_category: String,
}

/// Dataset manifest containing all available datasets
#[derive(Debug)]
pub struct DatasetManifest {
    pub datasets: Vec<Dataset>,
}

/// Index of the first of the first `n` datasets that is called `name`.
pub open spec fn first_named(datasets: Seq<Dataset>, name: Seq<char>, n: int) -> Option<int>
    decreases n,
{
    if n <= 0 {
        None
    } else {
        match first_named(datasets, name, n - 1) {
            Some(i) => Some(i),
            None => if datasets[n - 1].name@ == name {
                Some(n - 1)
            } else {
                None
            },
        }
    }
}

/// Once a dataset is found among the first `n`, looking further finds the
/// same one.
pub proof fn lemma_first_named_stays(datasets: Seq<Dataset>, name: Seq<char>, n: int, m: int)
    requires
        0 <= n <= m,
        first_named(datasets, name, n) is Some,
    ensures
        first_named(datasets, name, m) == first_named(datasets, name, n),
    decreases m - n,
{
    if n < m {
        lemma_first_named_stays(datasets, name, n, m - 1);
    }
}

/// The names of the datasets, in order.
pub open spec fn dataset_names(datasets: Seq<Dataset>) -> Seq<Seq<char>> {
    datasets.map_values(|d: Dataset| d.name@)
}

impl DatasetManifest {
    /// The first dataset called `name`, if there is one.
    pub open spec fn named(self, name: Seq<char>) -> Option<Dataset> {
        match first_named(self.datasets@, name, self.datasets@.len() as int) {
            Some(i) => Some(self.datasets@[i]),
            None => None,
        }
    }

    /// Find a dataset by name
    pub fn find_by_name(&self, name: &str) -> (r: Option<&Dataset>)
        ensures
            match r {
                Some(d) => self.named(name@) == Some(*d),
                None => self.named(name@) is None,
            },
    {
        let wanted = String::from_str(name);
        let mut i: usize = 0;
        while i < self.datasets.len()
            invariant
                i <= self.datasets.len(),
                wanted@ == name@,
                first_named(self.datasets@, name@, i as int) is None,
            decreases self.datasets.len() - i,
        {
            if self.datasets[i].name == wanted {
                proof {
                    lemma_first_named_stays(
                        self.datasets@,
                        name@,
                        i + 1,
                        self.datasets@.len() as int,
                    );
                }
                return Some(&self.datasets[i]);
            }
            i += 1;
        }
        None
    }

    /// Get all available dataset names
    pub fn names(&self) -> (r: Vec<String>)
        ensures
            crate::git::texts(r@) == dataset_names(self.datasets@),
    {
        let mut r: Vec<String> = Vec::new();
        let mut i: usize = 0;
        while i < self.datasets.len()
            invariant
                i <= self.datasets.len(),
                crate::git::texts(r@) == dataset_names(self.datasets@.take(i as int)),
            decreases self.datasets.len() - i,
        {
            let ghost before = r@;
            r.push(self.datasets[i].name.clone());
            assert(crate::git::texts(r@) =~= crate::git::texts(before).push(
                self.datasets@[i as int].name@,
            ));
            assert(dataset_names(self.datasets@.take(i + 1)) =~= dataset_names(
                self.datasets@.take(i as int),
            ).push(self.datasets@[i as int].name@));
            i += 1;
        }
        assert(self.datasets@.take(i as int) =~= self.datasets@);
        r
    }
}

/// Where cached datasets live.
#[derive(Debug)]
pub struct DatasetResolver {
    /// Base directory for cached datasets
    cache_dir: String,
}

impl DatasetResolver {
    /// The base directory, as text.
    pub closed spec fn dir(&self) -> Seq<char> {
        self.cache_dir@
    }

    /// A resolver for the cache directory at `cache_dir`. Nothing is created
    /// on disk.
    pub fn at(cache_dir: &str) -> (r: DatasetResolver)
        ensures
            r.dir() == cache_dir@,
    {
        DatasetResolver { cache_dir: String::from_str(cache_dir) }
    }

    /// Get the cache directory path
    pub fn cache_dir(&self) -> (dir: &str)
        ensures
            dir@ == self.dir(),
    {
        self.cache_dir.as_str()
    }
}

/// Get the default dataset: the one called `git`.
pub fn default_dataset(manifest: &DatasetManifest) -> (r: Result<Dataset, String>)
    ensures
        match r {
            Ok(d) => manifest.named("git"@) is Some && d@ == manifest.named("git"@)->0@,
            Err(message) => manifest.named("git"@) is None && message@
                == "Default dataset 'git' not found in manifest"@,
        },
{
    match manifest.find_by_name("git") {
        Some(d) => Ok(
            Dataset {
                name: d.name.clone(),
                description: d.description.clone(),
                url: d.url.clone(),
                revision: d.revision.clone(),
                size_category: d.size_category.clone(),
            },
        ),
        None => Err(String::from_str("Default dataset 'git' not found in manifest")),
    }
}

/// A dataset as plain texts.
pub struct DatasetModel {
    pub name: Seq<char>,
    pub description: Seq<char>,
    pub url: Seq<char>,
    pub revision: Seq<char>,
    pub size_category: Seq<char>,
}

impl View for Dataset {
    type V = DatasetModel;

    open spec fn view(&self) -> DatasetModel {
        DatasetModel {
            name: self.name@,
            description: self.description@,
            url: self.url@,
            revision: self.revision@,
            size_category: self.size_category@,
        }
    }
}

} // verus!
