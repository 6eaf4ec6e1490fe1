//! Repositories as a whole: opening, creating, describing, configuring.

use vstd::prelude::*;
use crate::error::AppError;
use crate::error::AppResult;
use crate::store::paths::file_name_of;
use crate::store::paths::path_exists;
use crate::store::paths::path_file_name;
use crate::store::paths::path_from;
use crate::store::paths::path_of;
use crate::store::refs::head;
use crate::store::refs::reference_shorthand;
use crate::store::repos::config_get_string;
use crate::store::repos::config_set_str;
use crate::store::repos::remote_names;
use crate::store::repos::repo_clone;
use crate::store::repos::repo_config;
use crate::store::repos::repo_init;
use crate::store::repos::repo_init_bare;
use crate::store::repos::repo_is_bare;
use crate::store::repos::repo_is_empty;
use crate::store::repos::repo_open;

verus! {

/// What is at a path: whether it holds a repository, and its basic facts.
#[derive(Debug, Clone)]
pub struct RepoInfo {
    pub path: String,
    pub name: String,
    pub is_repo: bool,
    pub is_bare: bool,
    pub current_branch: Option<String>,
    pub has_remote: bool,
    pub is_empty: bool,
}

impl RepoInfo {
    /// What is reported of a path that holds no repository: not bare, no
    /// branch, no remote, empty.
    pub open spec fn blank(self) -> bool {
        &&& !self.is_repo
        &&& !self.is_bare
        &&& self.current_branch is None
        &&& !self.has_remote
        &&& self.is_empty
    }
}

/// Opens the repository at `path`, once it is known whether anything
/// `exists` there. Fails with `REPO_NOT_FOUND` exactly when nothing does,
/// and with `INVALID_REPO` when what is there is no repository.
pub fn open_at(path: &str, exists: bool) -> (r: AppResult<git2::Repository>)
    ensures
        !exists <==> (r matches Err(e) && e.detailed("REPO_NOT_FOUND"@, "Caminho não encontrado"@, path@)),
        r matches Err(e) ==> e.detailed("REPO_NOT_FOUND"@, "Caminho não encontrado"@, path@) || e.detailed(
            "INVALID_REPO"@,
            "Diretório não é um repositório Git"@,
            path@,
        ),
{
    proof {
        reveal_strlit("REPO_NOT_FOUND");
        reveal_strlit("INVALID_REPO");
        assert("REPO_NOT_FOUND"@.len() != "INVALID_REPO"@.len());
    }
    if !exists {
        return Err(AppError::repo_not_found(path));
    }
    match repo_open(&path_from(path)) {
        Ok(repo) => Ok(repo),
        Err(_) => Err(AppError::invalid_repo(path)),
    }
}

/// Opens the repository at `path`. Fails with `REPO_NOT_FOUND` when
/// nothing is at the path, and with `INVALID_REPO` when what is there is
/// no repository.
pub fn open_repository(path: &str) -> (r: AppResult<git2::Repository>)
    ensures
        r matches Err(e) ==> e.detailed("REPO_NOT_FOUND"@, "Caminho não encontrado"@, path@) || e.detailed(
            "INVALID_REPO"@,
            "Diretório não é um repositório Git"@,
            path@,
        ),
{
    let exists = path_exists(&path_from(path));
    open_at(path, exists)
}

/// What the object store reports of an opened repository: whether it is
/// bare, the short name of `HEAD` if there is one, how many remotes it
/// has if they can be listed, and whether it is empty if that can be told.
#[derive(Debug, Clone)]
pub struct RepoFacts {
    pub is_bare: bool,
    pub current_branch: Option<String>,
    pub remotes: Option<usize>,
    pub is_empty: Option<bool>,
}

impl RepoInfo {
    /// The record describes what is at `path`. The name is the last
    /// component of the path, or the whole path when it has none. Without
    /// facts the path holds no repository and the record is blank; with
    /// them, a repository whose remotes cannot be listed counts as having
    /// none, and one of which it cannot be told counts as empty.
    pub open spec fn describes(self, path: Seq<char>, last: Option<String>, facts: Option<RepoFacts>) -> bool {
        &&& self.path@ == path
        &&& self.name@ == match last {
            Some(name) => name@,
            None => path,
        }
        &&& match facts {
            Some(found) => {
                &&& self.is_repo
                &&& self.is_bare == found.is_bare
                &&& self.current_branch == found.current_branch
                &&& self.has_remote == match found.remotes {
                    Some(n) => n > 0,
                    None => false,
                }
                &&& self.is_empty == match found.is_empty {
                    Some(empty) => empty,
                    None => true,
                }
            },
            None => self.blank(),
        }
    }
}

/// The name a path is shown under: its last component, or the whole path
/// when it has none.
pub open spec fn shown_name(path: Seq<char>) -> Seq<char> {
    match file_name_of(path_of(path)) {
        Some(name) => name,
        None => path,
    }
}

/// The name of what is at `path`, once the last component `last` of the
/// path is known: that component, or the whole path when there is none.
pub fn name_or_path(last: Option<String>, path: &str) -> (name: String)
    ensures
        name@ == match last {
            Some(text) => text@,
            None => path@,
        },
{
    match last {
        Some(name) => name,
        None => path.to_owned(),
    }
}

/// The name the path `path` is shown under.
pub fn display_name(path: &str) -> (name: String)
    ensures
        name@ == shown_name(path@),
{
    let place = path_from(path);
    name_or_path(path_file_name(&place), path)
}

/// The record of what is at `path`, whose last component is `last`.
pub fn repo_info(path: &str, last: Option<String>, facts: Option<RepoFacts>) -> (info: RepoInfo)
    ensures
        info.describes(path@, last, facts),
{
    let name = name_or_path(last, path);
    match facts {
        Some(found) => RepoInfo {
            path: path.to_owned(),
            name,
            is_repo: true,
            is_bare: found.is_bare,
            current_branch: found.current_branch,
            has_remote: match found.remotes {
                Some(n) => n > 0,
                None => false,
            },
            is_empty: match found.is_empty {
                Some(empty) => empty,
                None => true,
            },
        },
        None => RepoInfo {
            path: path.to_owned(),
            name,
            is_repo: false,
            is_bare: false,
            current_branch: None,
            has_remote: false,
            is_empty: true,
        },
    }
}

/// What is at `path`: the facts of the repository there, or a blank record
/// when there is none. The name is the last component of the path, or the
/// whole path when it has no last component. This never fails.
pub fn get_repo_info(path: &str) -> (r: AppResult<RepoInfo>)
    ensures
        r is Ok,
        r matches Ok(info) ==> info.path@ == path@ && info.name@ == shown_name(path@) && (info.is_repo
            || info.blank()),
{
    let place = path_from(path);
    let last = path_file_name(&place);
    let facts = match repo_open(&place) {
        Ok(repo) => {
            let current_branch = match head(&repo) {
                Ok(reference) => reference_shorthand(&reference),
                Err(_) => None,
            };
            let remotes = match remote_names(&repo) {
                Ok(names) => Some(names.len()),
                Err(_) => None,
            };
            let is_empty = match repo_is_empty(&repo) {
                Ok(empty) => Some(empty),
                Err(_) => None,
            };
            Some(RepoFacts { is_bare: repo_is_bare(&repo), current_branch, remotes, is_empty })
        },
        Err(_) => None,
    };
    Ok(repo_info(path, last, facts))
}

/// Creates a repository at `path`, bare or with a working tree.
pub fn init_repository(path: &str, bare: bool) -> (r: AppResult<git2::Repository>)
    ensures
        r matches Err(e) ==> e.is_store_failure(),
{
    let place = path_from(path);
    let made = if bare {
        repo_init_bare(&place)
    } else {
        repo_init(&place)
    };
    match made {
        Ok(repo) => Ok(repo),
        Err(e) => Err(AppError::git_error(e)),
    }
}

/// Clones the repository at `url` into `path`.
pub fn clone_repository(url: &str, path: &str) -> (r: AppResult<git2::Repository>)
    ensures
        r matches Err(e) ==> e.is_store_failure(),
{
    match repo_clone(url, &path_from(path)) {
        Ok(repo) => Ok(repo),
        Err(e) => Err(AppError::git_error(e)),
    }
}

/// The value configured for `key`, if there is one that can be read.
pub fn get_git_config(repo: &git2::Repository, key: &str) -> (value: Option<String>) {
    match repo_config(repo) {
        Ok(config) => match config_get_string(&config, key) {
            Ok(value) => Some(value),
            Err(_) => None,
        },
        Err(_) => None,
    }
}

/// Configures `value` for `key`.
pub fn set_git_config(repo: &git2::Repository, key: &str, value: &str) -> (r: AppResult<()>)
    ensures
        r matches Err(e) ==> e.is_store_failure(),
{
    let mut config = match repo_config(repo) {
        Ok(config) => config,
        Err(e) => {
            return Err(AppError::git_error(e));
        },
    };
    match config_set_str(&mut config, key, value) {
        Ok(()) => Ok(()),
        Err(e) => Err(AppError::git_error(e)),
    }
}

} // verus!
