//! The object store adapter: every call into the git object library passes
//! through one of the small functions declared below this module. Their
//! contracts are taken on trust; everything built on them is verified.

pub mod handles;
pub mod diffs;
pub mod refs;
pub mod commits;
pub mod worktree;
pub mod paths;
pub mod stashes;
pub mod repos;
pub mod json;
