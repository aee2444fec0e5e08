use std::collections::HashSet;

use rustwide::{
    is_vcs_path, CacheKey, Crate, FetchAction, FetchError, MaterializeError, MaterializePlan,
    SourceTree,
};

fn registry_key(name: &str, version: &str) -> CacheKey {
    CacheKey::Registry { name: name.to_string(), version: version.to_string() }
}

fn repo_key(url: &str) -> CacheKey {
    CacheKey::Repository { url: url.to_string() }
}

/// Runs the fetch of `krate` against a set of cache entries, as a caller
/// would, and returns the action taken.
fn run_fetch(krate: &Crate, cache: &mut HashSet<CacheKey>) -> FetchAction {
    let cached = match krate.cache_key() {
        Some(k) => cache.contains(&k),
        None => false,
    };
    let action = krate.fetch(cached);
    match &action {
        FetchAction::Download(k) | FetchAction::Clone(k) => {
            cache.insert(k.clone());
        }
        FetchAction::Update(_) | FetchAction::Nothing => {}
    }
    action
}

#[test]
fn cache_keys_follow_the_origin() {
    assert_eq!(Crate::crates_io("lazy_static", "1.0.0").cache_key(), Some(registry_key("lazy_static", "1.0.0")));
    assert_eq!(
        Crate::git("https://github.com/rust-lang/rustwide").cache_key(),
        Some(repo_key("https://github.com/rust-lang/rustwide"))
    );
    assert_eq!(Crate::local("/tmp/pkgA").cache_key(), None);
}

#[test]
fn registry_fetch_downloads_when_not_cached() {
    let krate = Crate::crates_io("serde", "1.0.100");
    assert_eq!(krate.fetch(false), FetchAction::Download(registry_key("serde", "1.0.100")));
    assert_eq!(krate.fetch(true), FetchAction::Nothing);
}

#[test]
fn registry_fetch_twice_downloads_once() {
    let krate = Crate::crates_io("serde", "1.0.100");
    let mut cache = HashSet::new();
    let mut downloads = 0;
    for _ in 0..2 {
        if let FetchAction::Download(_) = run_fetch(&krate, &mut cache) {
            downloads += 1;
        }
    }
    assert_eq!(downloads, 1);
    assert!(cache.contains(&registry_key("serde", "1.0.100")));
}

#[test]
fn registry_fetch_of_another_version_downloads_again() {
    let mut cache = HashSet::new();
    run_fetch(&Crate::crates_io("serde", "1.0.100"), &mut cache);
    let action = run_fetch(&Crate::crates_io("serde", "1.0.101"), &mut cache);
    assert_eq!(action, FetchAction::Download(registry_key("serde", "1.0.101")));
    assert_eq!(cache.len(), 2);
}

#[test]
fn repository_fetch_clones_then_updates() {
    let url = "https://example.com/repo.git";
    let krate = Crate::git(url);
    let mut cache = HashSet::new();
    assert_eq!(run_fetch(&krate, &mut cache), FetchAction::Clone(repo_key(url)));
    assert_eq!(run_fetch(&krate, &mut cache), FetchAction::Update(repo_key(url)));
    assert_eq!(run_fetch(&krate, &mut cache), FetchAction::Update(repo_key(url)));
}

#[test]
fn repository_fetch_of_existing_clone_updates() {
    let url = "https://example.com/repo.git";
    let mut cache = HashSet::new();
    cache.insert(repo_key(url));
    assert_eq!(run_fetch(&Crate::git(url), &mut cache), FetchAction::Update(repo_key(url)));
    assert_eq!(cache.len(), 1);
}

#[test]
fn local_fetch_touches_nothing() {
    let krate = Crate::local("/tmp/pkgA");
    assert_eq!(krate.fetch(false), FetchAction::Nothing);
    assert_eq!(krate.fetch(true), FetchAction::Nothing);
    let mut cache = HashSet::new();
    cache.insert(registry_key("serde", "1.0.100"));
    assert_eq!(run_fetch(&krate, &mut cache), FetchAction::Nothing);
    assert_eq!(cache.len(), 1);
}

#[test]
fn fetch_failures_name_the_origin() {
    let err = Crate::crates_io("serde", "1.0.100").fetch_result(Err("404".to_string()));
    assert_eq!(
        err,
        Err(FetchError::Registry {
            name: "serde".to_string(),
            version: "1.0.100".to_string(),
            cause: "404".to_string(),
        })
    );
    let err = Crate::git("https://example.com/r").fetch_result(Err("unreachable".to_string()));
    assert_eq!(
        err,
        Err(FetchError::Repository {
            url: "https://example.com/r".to_string(),
            cause: "unreachable".to_string(),
        })
    );
}

#[test]
fn fetch_successes_and_local_fetch_succeed() {
    assert_eq!(Crate::crates_io("serde", "1.0.100").fetch_result(Ok(())), Ok(()));
    assert_eq!(Crate::git("https://example.com/r").fetch_result(Ok(())), Ok(()));
    assert_eq!(Crate::local("/tmp/pkgA").fetch_result(Err("ignored".to_string())), Ok(()));
}

#[test]
fn plans_for_each_origin() {
    let plan = Crate::crates_io("serde", "1.0.100").copy_source_to("/tmp/out", false);
    assert_eq!(
        plan,
        MaterializePlan {
            clean: false,
            dest: "/tmp/out".to_string(),
            source: SourceTree::Cache(registry_key("serde", "1.0.100")),
            exclude_vcs: false,
        }
    );
    let plan = Crate::git("https://example.com/r").copy_source_to("/tmp/out", false);
    assert_eq!(plan.source, SourceTree::Cache(repo_key("https://example.com/r")));
    assert!(plan.exclude_vcs);
    let plan = Crate::local("/tmp/pkgA").copy_source_to("/tmp/out", false);
    assert_eq!(plan.source, SourceTree::Directory("/tmp/pkgA".to_string()));
    assert!(!plan.exclude_vcs);
}

#[test]
fn existing_destination_is_removed_first() {
    for krate in [Crate::crates_io("a", "0.1.0"), Crate::git("https://example.com/r"), Crate::local("/src")] {
        assert!(krate.copy_source_to("/tmp/out", true).clean);
        assert!(!krate.copy_source_to("/tmp/out", false).clean);
    }
}

#[test]
fn materialize_twice_gives_the_same_plan_but_for_cleanup() {
    let krate = Crate::git("https://example.com/r");
    let first = krate.copy_source_to("/tmp/out", false);
    let second = krate.copy_source_to("/tmp/out", true);
    assert!(!first.clean);
    assert!(second.clean);
    assert_eq!(first.source, second.source);
    assert_eq!(first.dest, second.dest);
    assert_eq!(first.exclude_vcs, second.exclude_vcs);
}

#[test]
fn local_directory_scenario() {
    let krate = Crate::local("/tmp/pkgA");
    assert_eq!(krate.cache_key(), None);
    assert_eq!(krate.fetch(false), FetchAction::Nothing);
    assert_eq!(krate.fetch_result(Ok(())), Ok(()));
    let plan = krate.copy_source_to("/tmp/out", false);
    assert_eq!(plan.dest, "/tmp/out");
    assert_eq!(plan.source, SourceTree::Directory("/tmp/pkgA".to_string()));
    assert_eq!(plan.check_source(true), Ok(()));
    assert!(plan.copies_entry("Cargo.toml"));
    assert!(plan.copies_entry("src"));
    assert!(plan.copies_entry("src/lib.rs"));
}

#[test]
fn repository_copy_leaves_out_vcs_metadata() {
    let plan = Crate::git("https://example.com/r").copy_source_to("/tmp/out", false);
    assert!(!plan.copies_entry(".git"));
    assert!(!plan.copies_entry(".git/HEAD"));
    assert!(!plan.copies_entry(".git/objects/ab"));
    assert!(plan.copies_entry(".gitignore"));
    assert!(plan.copies_entry(".github/workflows/ci.yml"));
    assert!(plan.copies_entry("src/lib.rs"));
    assert!(plan.copies_entry("Cargo.toml"));
}

#[test]
fn vcs_paths() {
    assert!(is_vcs_path(".git"));
    assert!(is_vcs_path(".git/config"));
    assert!(!is_vcs_path(".gi"));
    assert!(!is_vcs_path(""));
    assert!(!is_vcs_path(".gitmodules"));
    assert!(!is_vcs_path("src/.git"));
    assert!(!is_vcs_path("x.git"));
}

#[test]
fn missing_sources_are_named() {
    let plan = Crate::local("/nope").copy_source_to("/tmp/out", false);
    assert_eq!(plan.check_source(false), Err(MaterializeError::MissingSource { path: "/nope".to_string() }));
    let plan = Crate::crates_io("serde", "1.0.100").copy_source_to("/tmp/out", false);
    assert_eq!(
        plan.check_source(false),
        Err(MaterializeError::MissingCache { key: registry_key("serde", "1.0.100") })
    );
    let plan = Crate::git("https://example.com/r").copy_source_to("/tmp/out", true);
    assert_eq!(
        plan.check_source(false),
        Err(MaterializeError::MissingCache { key: repo_key("https://example.com/r") })
    );
    assert_eq!(plan.check_source(true), Ok(()));
}

#[test]
fn destination_failures_are_named() {
    let plan = Crate::local("/src").copy_source_to("/tmp/out", true);
    assert_eq!(
        plan.cleanup_failed("denied".to_string()),
        MaterializeError::Cleanup { dest: "/tmp/out".to_string(), cause: "denied".to_string() }
    );
    assert_eq!(
        plan.copy_failed("disk full".to_string()),
        MaterializeError::Copy { dest: "/tmp/out".to_string(), cause: "disk full".to_string() }
    );
}
