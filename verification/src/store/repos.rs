//! Repositories as a whole: opening, creating, configuration, remotes.

use vstd::prelude::*;

verus! {

/// `git2::Config`, carried as an opaque value.
#[verifier::external_type_specification]
#[verifier::external_body]
pub struct ExConfig(git2::Config);

/// `git2::Repository::open`.
#[verifier::external_body]
pub(crate) fn repo_open(path: &std::path::PathBuf) -> (r: Result<git2::Repository, git2::Error>) {
    git2::Repository::open(path)
}

/// `git2::Repository::init`.
#[verifier::external_body]
pub(crate) fn repo_init(path: &std::path::PathBuf) -> (r: Result<git2::Repository, git2::Error>) {
    git2::Repository::init(path)
}

/// `git2::Repository::init_bare`.
#[verifier::external_body]
pub(crate) fn repo_init_bare(path: &std::path::PathBuf) -> (r: Result<git2::Repository, git2::Error>) {
    git2::Repository::init_bare(path)
}

/// `git2::Repository::clone`.
#[verifier::external_body]
pub(crate) fn repo_clone(url: &str, path: &std::path::PathBuf) -> (r: Result<
    git2::Repository,
    git2::Error,
>) {
    git2::Repository::clone(url, path)
}

/// `git2::Repository::is_bare`.
#[verifier::external_body]
pub(crate) fn repo_is_bare(repo: &git2::Repository) -> (b: bool) {
    repo.is_bare()
}

/// `git2::Repository::is_empty`.
#[verifier::external_body]
pub(crate) fn repo_is_empty(repo: &git2::Repository) -> (r: Result<bool, git2::Error>) {
    repo.is_empty()
}

/// `git2::Repository::workdir`: the working directory, or nothing for a
/// bare repository.
#[verifier::external_body]
pub(crate) fn repo_workdir(repo: &git2::Repository) -> (path: Option<std::path::PathBuf>) {
    repo.workdir().map(|p| p.to_path_buf())
}

/// `git2::Repository::config`.
#[verifier::external_body]
pub(crate) fn repo_config(repo: &git2::Repository) -> (r: Result<git2::Config, git2::Error>) {
    repo.config()
}

/// `git2::Config::get_string`.
#[verifier::external_body]
pub(crate) fn config_get_string(config: &git2::Config, key: &str) -> (r: Result<String, git2::Error>) {
    config.get_string(key)
}

/// `git2::Config::set_str`.
#[verifier::external_body]
pub(crate) fn config_set_str(config: &mut git2::Config, key: &str, value: &str) -> (r: Result<
    (),
    git2::Error,
>) {
    config.set_str(key, value)
}

/// `git2::Repository::remotes`: the names of the remotes, each if it is
/// valid UTF-8.
#[verifier::external_body]
pub(crate) fn remote_names(repo: &git2::Repository) -> (r: Result<Vec<Option<String>>, git2::Error>) {
    Ok(repo.remotes()?.iter().map(|name| name.map(String::from)).collect())
}

/// The two addresses of a remote, each if it has one.
#[derive(Debug, Clone)]
pub struct RemoteRecord {
    pub url: Option<String>,
    pub pushurl: Option<String>,
}

/// `git2::Repository::find_remote`: the remote of that name; fails when
/// the configuration holds no address for it.
#[verifier::external_body]
pub(crate) fn find_remote<'r>(repo: &'r git2::Repository, name: &str) -> (r: Result<
    git2::Remote<'r>,
    git2::Error,
>) {
    repo.find_remote(name)
}

/// `git2::Repository::remote`: adds a remote with the default fetch
/// refspec.
#[verifier::external_body]
pub(crate) fn remote_create(repo: &git2::Repository, name: &str, url: &str) -> (r: Result<(), git2::Error>) {
    repo.remote(name, url).map(|_| ())
}

/// `git2::Repository::remote_delete`.
#[verifier::external_body]
pub(crate) fn remote_delete(repo: &git2::Repository, name: &str) -> (r: Result<(), git2::Error>) {
    repo.remote_delete(name)
}

/// `git2::Repository::remote_rename`; the refspecs that could not be
/// renamed along are not reported.
#[verifier::external_body]
pub(crate) fn remote_rename(repo: &git2::Repository, name: &str, new_name: &str) -> (r: Result<
    (),
    git2::Error,
>) {
    repo.remote_rename(name, new_name).map(|_| ())
}

} // verus!
