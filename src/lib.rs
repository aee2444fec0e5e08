//! Uniform access to the source code of a Rust crate, whether it comes from the
//! crates.io registry, a git repository or a local directory.
//!
//! A [`Crate`] decides, and its caller performs: which cache entry belongs to
//! it, what fetching it takes given what the cache already holds, how its
//! source is placed at a destination, and which error names a failure.

pub mod crates;
pub mod lemmas;
pub mod tree;

pub use crates::{
    CacheKey, Crate, FetchAction, FetchError, MaterializeError, MaterializePlan, SourceTree,
};
pub use tree::is_vcs_path;
