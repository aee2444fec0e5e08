use vstd::prelude::*;

use crate::tree::{is_vcs_path, is_vcs_path_spec, without_vcs, Tree};

verus! {

/// Where a crate's source comes from, as plain values.
pub enum Origin {
    /// A published version of a crate on the registry.
    Registry { name: Seq<char>, version: Seq<char> },
    /// A git repository, by the URL that clones it.
    Repository { url: Seq<char> },
    /// A directory of the local filesystem.
    LocalDirectory { path: Seq<char> },
}

/// Identity of an entry in the workspace cache.
pub enum EntryKey {
    Registry { name: Seq<char>, version: Seq<char> },
    Repository { url: Seq<char> },
}

/// The cache entry that holds an origin's source; a local directory has none.
pub open spec fn key_of(o: Origin) -> Option<EntryKey> {
    match o {
        Origin::Registry { name, version } => Some(EntryKey::Registry { name, version }),
        Origin::Repository { url } => Some(EntryKey::Repository { url }),
        Origin::LocalDirectory { .. } => None,
    }
}

/// What fetching takes, as plain values.
pub enum Action {
    /// Nothing to do: the source is already where it is read from.
    Nothing,
    /// Download the registry archive and extract it into this entry.
    Download(EntryKey),
    /// Clone the repository afresh into this entry.
    Clone(EntryKey),
    /// Bring the clone in this entry up to the remote's current state.
    Update(EntryKey),
}

/// The action that fetching an origin takes, given whether its cache entry exists.
pub open spec fn fetch_action(o: Origin, cached: bool) -> Action {
    match o {
        Origin::Registry { name, version } => if cached {
            Action::Nothing
        } else {
            Action::Download(EntryKey::Registry { name, version })
        },
        Origin::Repository { url } => if cached {
            Action::Update(EntryKey::Repository { url })
        } else {
            Action::Clone(EntryKey::Repository { url })
        },
        Origin::LocalDirectory { .. } => Action::Nothing,
    }
}

/// The set of cache entries after an action has succeeded.
pub open spec fn cache_after(cache: Set<EntryKey>, a: Action) -> Set<EntryKey> {
    match a {
        Action::Download(k) => cache.insert(k),
        Action::Clone(k) => cache.insert(k),
        _ => cache,
    }
}

/// How many registry downloads an action makes.
pub open spec fn downloads(a: Action) -> nat {
    if a is Download {
        1
    } else {
        0
    }
}

/// A failed fetch, naming what could not be fetched.
pub enum FetchFailure {
    Registry { name: Seq<char>, version: Seq<char>, cause: Seq<char> },
    Repository { url: Seq<char>, cause: Seq<char> },
}

/// What a fetch of the origin reports, given how its action went.
pub open spec fn fetch_report(o: Origin, outcome: Result<(), Seq<char>>) -> Result<(), FetchFailure> {
    match outcome {
        Ok(()) => Ok(()),
        Err(cause) => match o {
            Origin::Registry { name, version } => Err(
                FetchFailure::Registry { name, version, cause },
            ),
            Origin::Repository { url } => Err(FetchFailure::Repository { url, cause }),
            Origin::LocalDirectory { .. } => Ok(()),
        },
    }
}

/// How an outside step went, with the cause of a failure as plain text.
pub open spec fn outcome_view(r: Result<(), String>) -> Result<(), Seq<char>> {
    match r {
        Ok(()) => Ok(()),
        Err(cause) => Err(cause@),
    }
}

/// Where the material placed at a destination is read from.
pub enum Source {
    /// An entry of the workspace cache.
    Cache(EntryKey),
    /// A directory of the local filesystem.
    Directory(Seq<char>),
}

/// How a crate's source is placed at a destination.
pub struct Plan {
    /// Whether the destination exists and is removed first, in its entirety.
    pub clean: bool,
    pub dest: Seq<char>,
    pub source: Source,
    /// Whether version-control metadata is left out of the copy.
    pub exclude_vcs: bool,
}

/// The plan for placing an origin's source at `dest`, given whether `dest` exists.
pub open spec fn plan_for(o: Origin, dest: Seq<char>, dest_exists: bool) -> Plan {
    Plan {
        clean: dest_exists,
        dest,
        source: match o {
            Origin::Registry { name, version } => Source::Cache(
                EntryKey::Registry { name, version },
            ),
            Origin::Repository { url } => Source::Cache(EntryKey::Repository { url }),
            Origin::LocalDirectory { path } => Source::Directory(path),
        },
        exclude_vcs: o is Repository,
    }
}

/// What a plan copies of the source tree.
pub open spec fn copied(p: Plan, src: Tree) -> Tree {
    if p.exclude_vcs {
        without_vcs(src)
    } else {
        src
    }
}

/// The destination's files after a plan has run to completion, from what the
/// destination held before (`None`: it did not exist) and the source tree.
pub open spec fn materialized(p: Plan, before: Option<Tree>, src: Tree) -> Tree {
    let base = if p.clean {
        Map::empty()
    } else {
        match before {
            Some(t) => t,
            None => Map::empty(),
        }
    };
    base.union_prefer_right(copied(p, src))
}

/// A failed placement of a crate's source, naming what failed.
pub enum MaterializeFailure {
    Cleanup { dest: Seq<char>, cause: Seq<char> },
    MissingSource { path: Seq<char> },
    MissingCache { key: EntryKey },
    Copy { dest: Seq<char>, cause: Seq<char> },
}

#[derive(Debug, PartialEq, Eq)]
enum CrateType {
    CratesIO { name: String, version: String },
    Git { url: String },
    Local { path: String },
}

/// A Rust crate whose source can be fetched and copied to a directory.
///
/// Which kind of origin it has is fixed when it is built.
#[derive(Debug, PartialEq, Eq)]
pub struct Crate(CrateType);

impl View for Crate {
    type V = Origin;

    closed spec fn view(&self) -> Origin {
        match &self.0 {
            CrateType::CratesIO { name, version } => Origin::Registry {
                name: name@,
                version: version@,
            },
            CrateType::Git { url } => Origin::Repository { url: url@ },
            CrateType::Local { path } => Origin::LocalDirectory { path: path@ },
        }
    }
}

/// Key of an entry in the workspace cache.
#[derive(Debug, Clone, PartialEq, Eq, Hash)]
pub enum CacheKey {
    /// The extracted archive of one exact version of a registry crate.
    Registry { name: String, version: String },
    /// The clone of a git repository.
    Repository { url: String },
}

impl View for CacheKey {
    type V = EntryKey;

    open spec fn view(&self) -> EntryKey {
        match self {
            CacheKey::Registry { name, version } => EntryKey::Registry {
                name: name@,
                version: version@,
            },
            CacheKey::Repository { url } => EntryKey::Repository { url: url@ },
        }
    }
}

impl Crate {
    /// A crate from the crates.io registry, at exactly `version`.
    pub fn crates_io(name: &str, version: &str) -> (r: Self)
        ensures
            r@ == (Origin::Registry { name: name@, version: version@ }),
    {
        Crate(CrateType::CratesIO { name: name.to_owned(), version: version.to_owned() })
    }

    /// A crate from a git repository, by the full URL that clones it.
    pub fn git(url: &str) -> (r: Self)
        ensures
            r@ == (Origin::Repository { url: url@ }),
    {
        Crate(CrateType::Git { url: url.to_owned() })
    }

    /// A crate in a directory of the local filesystem.
    pub fn local(path: &str) -> (r: Self)
        ensures
            r@ == (Origin::LocalDirectory { path: path@ }),
    {
        Crate(CrateType::Local { path: path.to_owned() })
    }

    /// The cache entry that holds this crate's fetched source, if it has one.
    pub fn cache_key(&self) -> (r: Option<CacheKey>)
        ensures
            r matches Some(k) ==> key_of(self@) == Some(k@),
            r is None ==> key_of(self@) is None,
    {
        match &self.0 {
            CrateType::CratesIO { name, version } => Some(
                CacheKey::Registry { name: name.clone(), version: version.clone() },
            ),
            CrateType::Git { url } => Some(CacheKey::Repository { url: url.clone() }),
            CrateType::Local { .. } => None,
        }
    }

    /// What fetching this crate into the workspace cache takes, given whether
    /// the cache already holds its entry (see [`Crate::cache_key`]).
    ///
    /// A registry crate that is cached needs nothing; one that is not is
    /// downloaded. A repository that is cloned is updated; one that is not is
    /// cloned. A local directory never needs anything.
    pub fn fetch(&self, cached: bool) -> (r: FetchAction)
        ensures
            r@ == fetch_action(self@, cached),
    {
        match &self.0 {
            CrateType::CratesIO { name, version } => {
                if cached {
                    FetchAction::Nothing
                } else {
                    FetchAction::Download(
                        CacheKey::Registry { name: name.clone(), version: version.clone() },
                    )
                }
            },
            CrateType::Git { url } => {
                let key = CacheKey::Repository { url: url.clone() };
                if cached {
                    FetchAction::Update(key)
                } else {
                    FetchAction::Clone(key)
                }
            },
            CrateType::Local { .. } => FetchAction::Nothing,
        }
    }

    /// The result of fetching this crate, from how its fetch action went: a
    /// failure names the registry crate and version, or the repository URL.
    /// Fetching a local directory always succeeds.
    pub fn fetch_result(&self, outcome: Result<(), String>) -> (r: Result<(), FetchError>)
        ensures
            r matches Ok(()) <==> fetch_report(self@, outcome_view(outcome)) is Ok,
            r matches Err(e) ==> fetch_report(self@, outcome_view(outcome)) == Err::<(), _>(e@),
    {
        match outcome {
            Ok(()) => Ok(()),
            Err(cause) => match &self.0 {
                CrateType::CratesIO { name, version } => Err(
                    FetchError::Registry { name: name.clone(), version: version.clone(), cause },
                ),
                CrateType::Git { url } => Err(FetchError::Repository { url: url.clone(), cause }),
                CrateType::Local { .. } => Ok(()),
            },
        }
    }

    /// How this crate's source is placed at `dest`, given whether `dest`
    /// exists. An existing destination is removed first, in its entirety:
    /// nothing it held is kept. The fetch must have been done before.
    pub fn copy_source_to(&self, dest: &str, dest_exists: bool) -> (r: MaterializePlan)
        ensures
            r@ == plan_for(self@, dest@, dest_exists),
    {
        let (source, exclude_vcs) = match &self.0 {
            CrateType::CratesIO { name, version } => (
                SourceTree::Cache(CacheKey::Registry { name: name.clone(), version: version.clone() }),
                false,
            ),
            CrateType::Git { url } => (SourceTree::Cache(CacheKey::Repository { url: url.clone() }), true),
            CrateType::Local { path } => (SourceTree::Directory(path.clone()), false),
        };
        MaterializePlan { clean: dest_exists, dest: dest.to_owned(), source, exclude_vcs }
    }
}

impl MaterializePlan {
    /// Whether the file or directory at the relative path `rel` of the source
    /// tree is copied.
    pub fn copies_entry(&self, rel: &str) -> (r: bool)
        ensures
            r == !(self.exclude_vcs && is_vcs_path_spec(rel@)),
    {
        !(self.exclude_vcs && is_vcs_path(rel))
    }

    /// Checks, given whether the tree to copy from exists, that the copy can
    /// start: a missing local directory names its path, a missing cache entry
    /// names its key.
    pub fn check_source(&self, source_exists: bool) -> (r: Result<(), MaterializeError>)
        ensures
            r is Ok <==> source_exists,
            r matches Err(e) ==> match self.source@ {
                Source::Cache(k) => e@ == (MaterializeFailure::MissingCache { key: k }),
                Source::Directory(p) => e@ == (MaterializeFailure::MissingSource { path: p }),
            },
    {
        if source_exists {
            Ok(())
        } else {
            match &self.source {
                SourceTree::Cache(k) => Err(MaterializeError::MissingCache { key: k.copy_key() }),
                SourceTree::Directory(p) => Err(MaterializeError::MissingSource { path: p.clone() }),
            }
        }
    }

    /// The error for a failure to remove the existing destination.
    pub fn cleanup_failed(&self, cause: String) -> (e: MaterializeError)
        ensures
            e@ == (MaterializeFailure::Cleanup { dest: self.dest@, cause: cause@ }),
    {
        MaterializeError::Cleanup { dest: self.dest.clone(), cause }
    }

    /// The error for a failure while copying into the destination.
    pub fn copy_failed(&self, cause: String) -> (e: MaterializeError)
        ensures
            e@ == (MaterializeFailure::Copy { dest: self.dest@, cause: cause@ }),
    {
        MaterializeError::Copy { dest: self.dest.clone(), cause }
    }
}


/// What fetching a crate takes.
#[derive(Debug, PartialEq, Eq)]
pub enum FetchAction {
    Nothing,
    Download(CacheKey),
    Clone(CacheKey),
    Update(CacheKey),
}

impl View for FetchAction {
    type V = Action;

    open spec fn view(&self) -> Action {
        match self {
            FetchAction::Nothing => Action::Nothing,
            FetchAction::Download(k) => Action::Download(k@),
            FetchAction::Clone(k) => Action::Clone(k@),
            FetchAction::Update(k) => Action::Update(k@),
        }
    }
}

/// A failed fetch: the registry crate or the repository that could not be
/// fetched, and why.
#[derive(Debug, PartialEq, Eq)]
pub enum FetchError {
    Registry { name: String, version: String, cause: String },
    Repository { url: String, cause: String },
}

impl View for FetchError {
    type V = FetchFailure;

    open spec fn view(&self) -> FetchFailure {
        match self {
            FetchError::Registry { name, version, cause } => FetchFailure::Registry {
                name: name@,
                version: version@,
                cause: cause@,
            },
            FetchError::Repository { url, cause } => FetchFailure::Repository {
                url: url@,
                cause: cause@,
            },
        }
    }
}

/// Where the material placed at a destination is read from.
#[derive(Debug, PartialEq, Eq)]
pub enum SourceTree {
    Cache(CacheKey),
    Directory(String),
}

impl View for SourceTree {
    type V = Source;

    open spec fn view(&self) -> Source {
        match self {
            SourceTree::Cache(k) => Source::Cache(k@),
            SourceTree::Directory(p) => Source::Directory(p@),
        }
    }
}

/// The steps that place a crate's source at a destination: remove the
/// destination when `clean` is set, then copy the tree that `source` names
/// into it, leaving out version-control metadata when `exclude_vcs` is set.
#[derive(Debug, PartialEq, Eq)]
pub struct MaterializePlan {
    pub clean: bool,
    pub dest: String,
    pub source: SourceTree,
    pub exclude_vcs: bool,
}

impl View for MaterializePlan {
    type V = Plan;

    open spec fn view(&self) -> Plan {
        Plan {
            clean: self.clean,
            dest: self.dest@,
            source: self.source@,
            exclude_vcs: self.exclude_vcs,
        }
    }
}

/// A failed placement of a crate's source.
#[derive(Debug, PartialEq, Eq)]
pub enum MaterializeError {
    /// The destination existed and could not be removed.
    Cleanup { dest: String, cause: String },
    /// The local directory to copy from does not exist or cannot be read.
    MissingSource { path: String },
    /// The cache holds no entry for the crate: it was not fetched.
    MissingCache { key: CacheKey },
    /// Copying into the destination failed part way.
    Copy { dest: String, cause: String },
}

impl View for MaterializeError {
    type V = MaterializeFailure;

    open spec fn view(&self) -> MaterializeFailure {
        match self {
            MaterializeError::Cleanup { dest, cause } => MaterializeFailure::Cleanup {
                dest: dest@,
                cause: cause@,
            },
            MaterializeError::MissingSource { path } => MaterializeFailure::MissingSource {
                path: path@,
            },
            MaterializeError::MissingCache { key } => MaterializeFailure::MissingCache { key: key@ },
            MaterializeError::Copy { dest, cause } => MaterializeFailure::Copy {
                dest: dest@,
                cause: cause@,
            },
        }
    }
}

impl CacheKey {
    fn copy_key(&self) -> (r: CacheKey)
        ensures
            r@ == self@,
    {
        match self {
            CacheKey::Registry { name, version } => CacheKey::Registry {
                name: name.clone(),
                version: version.clone(),
            },
            CacheKey::Repository { url } => CacheKey::Repository { url: url.clone() },
        }
    }
}

} // verus!
