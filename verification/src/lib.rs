//! Domain engine of a Git client: branch and merge resolution, diff assembly,
//! conflict-marker parsing, stash bookkeeping and the registry of open
//! repositories, with the object store reached through a thin adapter.

pub mod text;
pub mod error;
pub mod store;
pub mod diff;
pub mod status;
pub mod branch;
pub mod conflict;
pub mod commit;
pub mod stash;
pub mod repository;
pub mod remote;
pub mod state;
pub mod config;
pub mod terminal;
pub mod github;
