use vstd::prelude::*;

use crate::crates::{
    cache_after, copied, downloads, fetch_action, key_of, materialized, plan_for, Action, EntryKey,
    Origin, Plan,
};
use crate::tree::{is_vcs_path_spec, Tree};

verus! {

/// Placing an origin's source twice at a destination that did not exist gives
/// the same files both times, when the source has not changed in between: the
/// second run removes the first copy and makes it anew.
pub proof fn lemma_materialize_twice_same(o: Origin, dest: Seq<char>, src: Tree)
    ensures
        ({
            let first = materialized(plan_for(o, dest, false), None, src);
            let second = materialized(plan_for(o, dest, true), Some(first), src);
            second == first
        }),
{
    let first = materialized(plan_for(o, dest, false), None, src);
    let second = materialized(plan_for(o, dest, true), Some(first), src);
    assert(second =~= first);
}

/// Placing an origin's source at a destination that holds other files leaves
/// only the source's copy there: none of the files it held before remains,
/// unless the source has a file at the same path.
pub proof fn lemma_materialize_replaces_existing(o: Origin, dest: Seq<char>, before: Tree, src: Tree)
    ensures
        ({
            let p = plan_for(o, dest, true);
            let after = materialized(p, Some(before), src);
            &&& after == copied(p, src)
            &&& forall|f: Seq<char>| #[trigger]
                after.contains_key(f) ==> src.contains_key(f) && after[f] == src[f]
        }),
{
    let p = plan_for(o, dest, true);
    let after = materialized(p, Some(before), src);
    assert(after =~= copied(p, src));
}

/// Fetching a registry crate twice into one cache downloads it at most once:
/// after a first fetch has succeeded, the second finds the entry and does
/// nothing.
pub proof fn lemma_registry_fetch_downloads_once(o: Origin, cache: Set<EntryKey>)
    requires
        o is Registry,
    ensures
        ({
            let k = key_of(o).unwrap();
            let a1 = fetch_action(o, cache.contains(k));
            let a2 = fetch_action(o, cache_after(cache, a1).contains(k));
            &&& downloads(a1) + downloads(a2) <= 1
            &&& a2 is Nothing
        }),
{
}

/// Fetching a repository whose clone is in the cache updates that clone and
/// does not clone again; so does any fetch after a first one has succeeded.
pub proof fn lemma_repository_fetch_updates_clone(o: Origin, cache: Set<EntryKey>)
    requires
        o is Repository,
    ensures
        ({
            let k = key_of(o).unwrap();
            let a1 = fetch_action(o, cache.contains(k));
            let a2 = fetch_action(o, cache_after(cache, a1).contains(k));
            &&& cache.contains(k) ==> a1 == Action::Update(k)
            &&& a2 == Action::Update(k)
        }),
{
}

/// Fetching a local directory has no cache entry, takes no action whatever
/// the cache holds, and leaves the cache as it was.
pub proof fn lemma_local_fetch_touches_nothing(o: Origin, cache: Set<EntryKey>, cached: bool)
    requires
        o is LocalDirectory,
    ensures
        key_of(o) is None,
        fetch_action(o, cached) == Action::Nothing,
        cache_after(cache, fetch_action(o, cached)) == cache,
{
}

/// A plan copies exactly the files of the source that it does not leave out
/// as version-control metadata, each with its bytes.
pub proof fn lemma_copied_files(p: Plan, src: Tree, f: Seq<char>)
    ensures
        copied(p, src).contains_key(f) <==> src.contains_key(f) && !(p.exclude_vcs
            && is_vcs_path_spec(f)),
        copied(p, src).contains_key(f) ==> copied(p, src)[f] == src[f],
{
}

} // verus!
