//! The list of recently opened repositories: most recent first, one entry
//! for each path, never longer than ten.

use vstd::prelude::*;
use crate::repository::display_name;
use crate::repository::shown_name;
use crate::store::paths::joined;
use crate::store::paths::path_from;
use crate::store::paths::path_join;
use crate::store::paths::path_of;
use crate::store::paths::user_config_dir;
use crate::text::same_text;

verus! {

/// How many recent repositories are remembered.
pub const MAX_RECENT_REPOS: usize = 10;

/// One recently opened repository.
#[derive(Debug, Clone)]
pub struct RecentRepo {
    pub path: String,
    pub name: String,
    pub last_opened: i64,
}

/// What the application remembers between runs.
#[derive(Debug, Default)]
pub struct AppConfig {
    pub recent_repos: Vec<RecentRepo>,
    pub theme: String,
    pub default_branch: String,
}

/// The entries of `repos` whose path is not `path`, in order.
pub open spec fn without_path(repos: Seq<RecentRepo>, path: Seq<char>) -> Seq<RecentRepo>
    decreases repos.len(),
{
    if repos.len() == 0 {
        seq![]
    } else if repos.last().path@ == path {
        without_path(repos.drop_last(), path)
    } else {
        without_path(repos.drop_last(), path).push(repos.last())
    }
}

/// Whether no two entries share a path.
pub open spec fn distinct_paths(repos: Seq<RecentRepo>) -> bool {
    forall|i: int, j: int| 0 <= i < j < repos.len() ==> repos[i].path@ != repos[j].path@
}

/// The first `limit` entries, or all when there are fewer.
pub open spec fn capped(repos: Seq<RecentRepo>, limit: int) -> Seq<RecentRepo> {
    if repos.len() > limit {
        repos.take(limit)
    } else {
        repos
    }
}

/// Every entry of `without_path` is an entry of the list, none has the
/// path, and the order is kept.
pub proof fn lemma_without_path(repos: Seq<RecentRepo>, path: Seq<char>)
    ensures
        without_path(repos, path).len() <= repos.len(),
        forall|i: int|
            0 <= i < without_path(repos, path).len() ==> (#[trigger] without_path(repos, path)[i]).path@
                != path,
        distinct_paths(repos) ==> distinct_paths(without_path(repos, path)),
        forall|i: int|
            0 <= i < without_path(repos, path).len() ==> exists|k: int|
                i <= k < repos.len() && repos[k] == #[trigger] without_path(repos, path)[i],
    decreases repos.len(),
{
    if repos.len() > 0 {
        let rest = repos.drop_last();
        lemma_without_path(rest, path);
        let kept = without_path(rest, path);
        let all = without_path(repos, path);
        assert forall|i: int| 0 <= i < all.len() implies exists|k: int|
            i <= k < repos.len() && repos[k] == #[trigger] all[i] by {
            if i < kept.len() {
                let k = choose|k: int| i <= k < rest.len() && rest[k] == kept[i];
                assert(repos[k] == all[i]);
            } else {
                assert(repos[repos.len() - 1] == all[i]);
            }
        }
        if distinct_paths(repos) {
            assert(distinct_paths(rest)) by {
                assert forall|i: int, j: int| 0 <= i < j < rest.len() implies rest[i].path@
                    != rest[j].path@ by {
                    assert(rest[i] == repos[i] && rest[j] == repos[j]);
                }
            }
            assert forall|i: int, j: int| 0 <= i < j < all.len() implies all[i].path@ != all[j].path@ by {
                if j == kept.len() {
                    let k = choose|k: int| i <= k < rest.len() && rest[k] == kept[i];
                    assert(repos[k].path@ != repos[repos.len() - 1].path@);
                }
            }
        }
    }
}

/// Where the configuration file lies when the user's configuration
/// directory is `base`: at `config.json` in the directory `git-gui` below
/// it, or below the current directory `.` when there is none.
pub open spec fn config_file_below(base: Option<std::path::PathBuf>) -> std::path::PathBuf {
    joined(
        joined(
            match base {
                Some(dir) => dir,
                None => path_of("."@),
            },
            "git-gui"@,
        ),
        "config.json"@,
    )
}

/// Where the configuration file lies when the user's configuration
/// directory is `base`.
pub fn config_path_below(base: Option<std::path::PathBuf>) -> (path: std::path::PathBuf)
    ensures
        path == config_file_below(base),
{
    let below = match base {
        Some(dir) => dir,
        None => path_from("."),
    };
    let dir = path_join(&below, "git-gui");
    path_join(&dir, "config.json")
}

impl AppConfig {
    /// Where the configuration file lies: `git-gui/config.json` below the
    /// user's configuration directory, or below the current directory when
    /// the environment names none.
    pub fn config_path() -> (path: std::path::PathBuf)
        ensures
            exists|base: Option<std::path::PathBuf>| path == #[trigger] config_file_below(base),
    {
        config_path_below(user_config_dir())
    }

    /// Puts the repository at `path`, opened at time `now`, at the front
    /// of the list. An older entry for the same path goes away, and the
    /// list is cut to its ten most recent entries. The entry is named
    /// after the last component of the path, or after the whole path when
    /// it has none.
    pub fn add_recent_repo(&mut self, path: &str, now: i64)
        ensures
            final(self).recent_repos@.len() >= 1,
            final(self).recent_repos@.len() <= MAX_RECENT_REPOS,
            final(self).recent_repos@[0].path@ == path@,
            final(self).recent_repos@[0].name@ == shown_name(path@),
            final(self).recent_repos@[0].last_opened == now,
            final(self).recent_repos@.skip(1) == capped(
                without_path(old(self).recent_repos@, path@),
                MAX_RECENT_REPOS - 1,
            ),
            distinct_paths(old(self).recent_repos@) ==> distinct_paths(final(self).recent_repos@),
            final(self).theme == old(self).theme,
            final(self).default_branch == old(self).default_branch,
    {
        let ghost before = self.recent_repos@;
        self.remove_recent_repo(path);
        let ghost kept = self.recent_repos@;
        let name = display_name(path);
        self.recent_repos.insert(0, RecentRepo { path: path.to_owned(), name, last_opened: now });
        assert(self.recent_repos@.skip(1) =~= kept);
        self.recent_repos.truncate(MAX_RECENT_REPOS);
        assert(self.recent_repos@.skip(1) =~= capped(kept, MAX_RECENT_REPOS - 1));
        proof {
            lemma_without_path(before, path@);
            if distinct_paths(before) {
                let after = self.recent_repos@;
                assert forall|i: int, j: int| 0 <= i < j < after.len() implies after[i].path@
                    != after[j].path@ by {
                    assert(after[j] == kept[j - 1]);
                    if i > 0 {
                        assert(after[i] == kept[i - 1]);
                    }
                }
            }
        }
    }

    /// Takes the entry for `path` out of the list.
    pub fn remove_recent_repo(&mut self, path: &str)
        ensures
            final(self).recent_repos@ == without_path(old(self).recent_repos@, path@),
            final(self).theme == old(self).theme,
            final(self).default_branch == old(self).default_branch,
    {
        let mut rest: Vec<RecentRepo> = Vec::new();
        std::mem::swap(&mut rest, &mut self.recent_repos);
        let ghost all = rest@;
        let mut kept: Vec<RecentRepo> = Vec::new();
        let mut taken: usize = 0;
        let total = rest.len();
        assert(all.take(0) =~= Seq::<RecentRepo>::empty());
        while rest.len() > 0
            invariant
                taken + rest@.len() == all.len(),
                total == all.len(),
                rest@ == all.skip(taken as int),
                kept@ == without_path(all.take(taken as int), path@),
            decreases rest.len(),
        {
            let entry = rest.remove(0);
            assert(entry == all[taken as int]);
            assert(all.take(taken + 1).drop_last() =~= all.take(taken as int));
            assert(all.take(taken + 1).last() == entry);
            if !same_text(entry.path.as_str(), path) {
                kept.push(entry);
            }
            taken = taken + 1;
            assert(rest@ =~= all.skip(taken as int));
        }
        assert(all.take(taken as int) =~= all);
        self.recent_repos = kept;
    }

    /// The list, most recent first.
    pub fn get_recent_repos(&self) -> (repos: Vec<RecentRepo>)
        ensures
            repos@.len() == self.recent_repos@.len(),
            forall|i: int|
                0 <= i < repos@.len() ==> {
                    &&& (#[trigger] repos@[i]).path@ == self.recent_repos@[i].path@
                    &&& repos@[i].name@ == self.recent_repos@[i].name@
                    &&& repos@[i].last_opened == self.recent_repos@[i].last_opened
                },
    {
        let mut repos: Vec<RecentRepo> = Vec::new();
        let mut i: usize = 0;
        while i < self.recent_repos.len()
            invariant
                i <= self.recent_repos.len(),
                repos@.len() == i,
                forall|k: int|
                    0 <= k < i ==> {
                        &&& (#[trigger] repos@[k]).path@ == self.recent_repos@[k].path@
                        &&& repos@[k].name@ == self.recent_repos@[k].name@
                        &&& repos@[k].last_opened == self.recent_repos@[k].last_opened
                    },
            decreases self.recent_repos.len() - i,
        {
            let entry = &self.recent_repos[i];
            repos.push(
                RecentRepo {
                    path: entry.path.clone(),
                    name: entry.name.clone(),
                    last_opened: entry.last_opened,
                },
            );
            i = i + 1;
        }
        repos
    }
}

} // verus!
