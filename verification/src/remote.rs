//! Remotes: listing and editing them, and what fetching, pulling and
//! pushing come to on this side of the network.

use vstd::prelude::*;
use crate::branch::forced_checkout;
use crate::branch::merge_plan;
use crate::branch::MergePlan;
use crate::branch::plan_merge;
use crate::conflict::refuse_conflicts;
use crate::error::AppError;
use crate::error::AppResult;
use crate::store::commits::commit_id;
use crate::store::commits::create_commit;
use crate::store::commits::default_signature;
use crate::store::commits::find_tree;
use crate::store::refs::BranchScope;
use crate::store::refs::find_branch;
use crate::store::refs::find_reference;
use crate::store::refs::head;
use crate::store::refs::merge_base;
use crate::store::refs::oid_hex;
use crate::store::refs::peel_to_commit;
use crate::store::refs::reference_name;
use crate::store::refs::set_branch_upstream;
use crate::store::refs::set_reference;
use crate::store::repos::config_get_string;
use crate::store::repos::find_remote;
use crate::store::repos::remote_create;
use crate::store::repos::remote_delete;
use crate::store::repos::remote_names;
use crate::store::repos::remote_rename;
use crate::store::repos::RemoteRecord;
use crate::store::repos::repo_config;
use crate::store::worktree::checkout_head;
use crate::store::worktree::index_has_conflicts;
use crate::store::worktree::index_write_tree_to;
use crate::store::worktree::merge_commits;
use crate::text::same_text;

verus! {

/// One remote with the addresses it is fetched from and pushed to.
#[derive(Debug, Clone)]
pub struct RemoteInfo {
    pub name: String,
    pub fetch_url: String,
    pub push_url: String,
}

/// The address a remote is fetched from; empty when it has none.
pub open spec fn fetch_url_text(record: RemoteRecord) -> Seq<char> {
    match record.url {
        Some(url) => url@,
        None => Seq::empty(),
    }
}

/// The address a remote is pushed to: its push address, or the address it
/// is fetched from when it has no other.
pub open spec fn push_url_text(record: RemoteRecord) -> Seq<char> {
    match record.pushurl {
        Some(url) => url@,
        None => fetch_url_text(record),
    }
}

impl RemoteInfo {
    /// The entry shows the remote `name` with the addresses of `record`.
    pub open spec fn renders(self, name: Seq<char>, record: RemoteRecord) -> bool {
        &&& self.name@ == name
        &&& self.fetch_url@ == fetch_url_text(record)
        &&& self.push_url@ == push_url_text(record)
    }
}

/// The entry of the remote `name` with the addresses of `record`.
pub fn remote_info(name: String, record: RemoteRecord) -> (info: RemoteInfo)
    ensures
        info.renders(name@, record),
{
    let fetch_url = match &record.url {
        Some(url) => url.clone(),
        None => String::new(),
    };
    let push_url = match record.pushurl {
        Some(url) => url,
        None => fetch_url.clone(),
    };
    RemoteInfo { name, fetch_url, push_url }
}

/// The configuration key of one setting of a remote.
pub open spec fn remote_key_text(name: Seq<char>, setting: Seq<char>) -> Seq<char> {
    "remote."@ + name + "."@ + setting
}

/// The configuration key under which the remote `name` keeps `setting`.
pub fn remote_key(name: &str, setting: &str) -> (key: String)
    ensures
        key@ == remote_key_text(name@, setting@),
{
    let mut key = "remote.".to_owned();
    key.push_str(name);
    key.push_str(".");
    key.push_str(setting);
    key
}

/// The address that a configured value gives: the value itself, and none
/// where nothing is configured or the value is empty.
pub open spec fn address_of(value: Option<String>) -> Option<String> {
    match value {
        Some(text) => if text@.len() > 0 {
            Some(text)
        } else {
            None
        },
        None => None,
    }
}

/// The address that a configured value gives.
pub fn configured_address(value: Option<String>) -> (address: Option<String>)
    ensures
        address == address_of(value),
{
    match value {
        Some(text) => {
            if text.as_str().unicode_len() > 0 {
                Some(text)
            } else {
                None
            }
        },
        None => None,
    }
}

/// Reads the addresses of the remote `name` from the configuration: the
/// values of its `url` and `pushurl` settings, as they are written there.
fn read_remote(repo: &git2::Repository, name: &str) -> (r: Result<RemoteRecord, git2::Error>) {
    match find_remote(repo, name) {
        Ok(_) => {},
        Err(e) => {
            return Err(e);
        },
    }
    let config = match repo_config(repo) {
        Ok(config) => config,
        Err(e) => {
            return Err(e);
        },
    };
    let url_key = remote_key(name, "url");
    let url = match config_get_string(&config, url_key.as_str()) {
        Ok(value) => Some(value),
        Err(_) => None,
    };
    let pushurl_key = remote_key(name, "pushurl");
    let pushurl = match config_get_string(&config, pushurl_key.as_str()) {
        Ok(value) => Some(value),
        Err(_) => None,
    };
    Ok(RemoteRecord { url: configured_address(url), pushurl: configured_address(pushurl) })
}

/// The texts of a list of strings.
pub open spec fn names_of(items: Seq<String>) -> Seq<Seq<char>> {
    Seq::new(items.len(), |i: int| items[i]@)
}

/// The names among `listed` that are there, in their order.
pub open spec fn present_names(listed: Seq<Option<String>>) -> Seq<Seq<char>>
    decreases listed.len(),
{
    if listed.len() == 0 {
        Seq::empty()
    } else {
        let rest = present_names(listed.drop_last());
        match listed.last() {
            Some(name) => rest.push(name@),
            None => rest,
        }
    }
}

/// The names that the store could give as text, in the order it listed
/// them; a name that is not valid UTF-8 is listed as none and left out.
pub fn readable_names(listed: &Vec<Option<String>>) -> (names: Vec<String>)
    ensures
        names_of(names@) == present_names(listed@),
{
    let mut names: Vec<String> = Vec::new();
    let mut i: usize = 0;
    assert(names_of(names@) =~= present_names(listed@.take(0)));
    while i < listed.len()
        invariant
            i <= listed.len(),
            names_of(names@) == present_names(listed@.take(i as int)),
        decreases listed.len() - i,
    {
        let ghost before = names@;
        proof {
            assert(listed@.take(i + 1).drop_last() =~= listed@.take(i as int));
            assert(listed@.take(i + 1).last() == listed@[i as int]);
        }
        match &listed[i] {
            Some(name) => {
                names.push(name.clone());
                assert(names_of(names@) =~= names_of(before).push(name@));
            },
            None => {},
        }
        i = i + 1;
    }
    assert(listed@.take(listed@.len() as int) =~= listed@);
    names
}

/// The entries of the remotes of the given names, in their order: one for
/// each name, with the addresses that the configuration holds for it.
pub fn remote_entries(repo: &git2::Repository, names: Vec<String>) -> (r: AppResult<Vec<RemoteInfo>>)
    ensures
        match r {
            Ok(remotes) => {
                &&& remotes@.len() == names@.len()
                &&& forall|i: int| 0 <= i < remotes@.len() ==> (#[trigger] remotes@[i]).name@ == names@[i]@
            },
            Err(e) => e.is_store_failure(),
        },
{
    let ghost all = names@;
    let mut rest = names;
    let mut remotes: Vec<RemoteInfo> = Vec::new();
    assert(rest@ =~= all.skip(0));
    while rest.len() > 0
        invariant
            remotes@.len() + rest@.len() == all.len(),
            rest@ == all.skip(remotes@.len() as int),
            forall|i: int| 0 <= i < remotes@.len() ==> (#[trigger] remotes@[i]).name@ == all[i]@,
        decreases rest.len(),
    {
        let ghost taken = remotes@.len() as int;
        let name = rest.remove(0);
        assert(name == all[taken]);
        match read_remote(repo, name.as_str()) {
            Ok(record) => {
                remotes.push(remote_info(name, record));
            },
            Err(e) => {
                return Err(AppError::git_error(e));
            },
        }
        assert(rest@ =~= all.skip(remotes@.len() as int));
    }
    Ok(remotes)
}

/// The remotes of the repository, in the order the store lists them;
/// names that are not valid UTF-8 are left out. A remote without an
/// address to fetch from is listed with an empty one. The names are read
/// here; `readable_names` and `remote_entries` do the rest.
pub fn list_remotes(repo: &git2::Repository) -> (r: AppResult<Vec<RemoteInfo>>)
    ensures
        r matches Err(e) ==> e.is_store_failure(),
{
    let listed = match remote_names(repo) {
        Ok(listed) => listed,
        Err(e) => {
            return Err(AppError::git_error(e));
        },
    };
    remote_entries(repo, readable_names(&listed))
}

/// Adds the remote `name` at the address `url`.
pub fn add_remote(repo: &git2::Repository, name: &str, url: &str) -> (r: AppResult<()>)
    ensures
        r matches Err(e) ==> e.is_store_failure(),
{
    match remote_create(repo, name, url) {
        Ok(()) => Ok(()),
        Err(e) => Err(AppError::git_error(e)),
    }
}

/// Removes the remote `name`.
pub fn remove_remote(repo: &git2::Repository, name: &str) -> (r: AppResult<()>)
    ensures
        r matches Err(e) ==> e.is_store_failure(),
{
    match remote_delete(repo, name) {
        Ok(()) => Ok(()),
        Err(e) => Err(AppError::git_error(e)),
    }
}

/// Renames the remote `old_name` to `new_name`.
pub fn rename_remote(repo: &git2::Repository, old_name: &str, new_name: &str) -> (r: AppResult<()>)
    ensures
        r matches Err(e) ==> e.is_store_failure(),
{
    match remote_rename(repo, old_name, new_name) {
        Ok(()) => Ok(()),
        Err(e) => Err(AppError::git_error(e)),
    }
}

/// The remotes that a fetch goes to: the one that is named, or every
/// remote of the repository when none is.
pub fn fetch_targets(repo: &git2::Repository, remote_name: Option<&str>) -> (r: AppResult<Vec<String>>)
    ensures
        match r {
            Ok(names) => remote_name matches Some(name) ==> names_of(names@) == seq![name@],
            Err(e) => remote_name is None && e.is_store_failure(),
        },
{
    match remote_name {
        Some(name) => {
            let mut names: Vec<String> = Vec::new();
            names.push(name.to_owned());
            assert(names_of(names@) =~= seq![name@]);
            Ok(names)
        },
        None => {
            let listed = match remote_names(repo) {
                Ok(listed) => listed,
                Err(e) => {
                    return Err(AppError::git_error(e));
                },
            };
            Ok(readable_names(&listed))
        },
    }
}

/// The user an SSH agent is asked for: the one the address names, or
/// `git`.
pub fn agent_user(username_from_url: Option<&str>) -> (user: String)
    ensures
        user@ == match username_from_url {
            Some(name) => name@,
            None => "git"@,
        },
{
    match username_from_url {
        Some(name) => name.to_owned(),
        None => "git".to_owned(),
    }
}

/// The refspec that pushes the local branch `branch` to the branch of the
/// same name, with a leading `+` when the push is forced.
pub open spec fn push_refspec_text(branch: Seq<char>, force: bool) -> Seq<char> {
    (if force {
        "+"@
    } else {
        Seq::empty()
    }) + "refs/heads/"@ + branch + ":refs/heads/"@ + branch
}

/// The refspec that pushes the local branch `branch`.
pub fn push_refspec(branch: &str, force: bool) -> (out: String)
    ensures
        out@ == push_refspec_text(branch@, force),
{
    let mut out = String::new();
    if force {
        out.push_str("+");
    }
    assert(out@ =~= if force {
        "+"@
    } else {
        Seq::empty()
    });
    out.push_str("refs/heads/");
    out.push_str(branch);
    out.push_str(":refs/heads/");
    out.push_str(branch);
    out
}

/// The name of the upstream branch `remote_branch` of the remote `remote`.
pub open spec fn upstream_text(remote: Seq<char>, remote_branch: Seq<char>) -> Seq<char> {
    remote + "/"@ + remote_branch
}

/// The name of the upstream branch `remote_branch` of the remote `remote`.
pub fn upstream_name(remote: &str, remote_branch: &str) -> (out: String)
    ensures
        out@ == upstream_text(remote@, remote_branch@),
{
    let mut out = remote.to_owned();
    out.push_str("/");
    out.push_str(remote_branch);
    out
}

/// Makes `<remote>/<remote_branch>` the upstream of the local branch
/// `branch`.
pub fn set_upstream(repo: &git2::Repository, branch: &str, remote: &str, remote_branch: &str) -> (r:
    AppResult<()>)
    ensures
        r matches Err(e) ==> e.is_store_failure(),
{
    let mut local = match find_branch(repo, branch, BranchScope::Local) {
        Ok(local) => local,
        Err(e) => {
            return Err(AppError::git_error(e));
        },
    };
    let name = upstream_name(remote, remote_branch);
    match set_branch_upstream(&mut local, Some(name.as_str())) {
        Ok(()) => Ok(()),
        Err(e) => Err(AppError::git_error(e)),
    }
}

/// The message of the commit that merges what was fetched of `branch` from
/// `remote_name`.
pub open spec fn pull_message_text(remote_name: Seq<char>, branch: Seq<char>) -> Seq<char> {
    "Merge remote-tracking branch '"@ + remote_name + "/"@ + branch + "'"@
}

/// The message of the commit that merges what was fetched.
pub fn pull_message(remote_name: &str, branch: &str) -> (out: String)
    ensures
        out@ == pull_message_text(remote_name@, branch@),
{
    let mut out = "Merge remote-tracking branch '".to_owned();
    out.push_str(remote_name);
    out.push_str("/");
    out.push_str(branch);
    out.push_str("'");
    out
}

/// Whether a pull has anything to bring in.
#[derive(Debug, Clone, Copy, PartialEq, Eq, Structural)]
pub enum PullPlan {
    /// The fetched commit is the current tip: nothing is done.
    UpToDate,
    /// The fetched commit differs from the current tip: it is brought in,
    /// by fast-forward or by a merge.
    Integrate,
}

/// A pull is up to date exactly when the fetched commit is the current
/// tip.
pub open spec fn pull_plan(tip_id: Seq<char>, fetched_id: Seq<char>) -> PullPlan {
    if fetched_id == tip_id {
        PullPlan::UpToDate
    } else {
        PullPlan::Integrate
    }
}

/// Whether a pull onto the tip `tip_id` has anything to bring in when the
/// fetched commit is `fetched_id`.
pub fn plan_pull(tip_id: &str, fetched_id: &str) -> (plan: PullPlan)
    ensures
        plan == pull_plan(tip_id@, fetched_id@),
{
    if same_text(fetched_id, tip_id) {
        PullPlan::UpToDate
    } else {
        PullPlan::Integrate
    }
}

/// Completes the merge of a pull, once the trees of the current tip and of
/// the fetched commit are merged into `merged` and it is known whether
/// that index is `conflicted`. Fails with `MERGE_CONFLICT` exactly when it
/// is, before anything is written. Without conflicts a commit with both
/// as parents and the message of `pull_message` is made on `HEAD`, and
/// the result is `merge`.
pub fn conclude_pull(
    repo: &git2::Repository,
    merged: &mut git2::Index,
    conflicted: bool,
    signature: &git2::Signature<'_>,
    tip: git2::Commit<'_>,
    fetched: git2::Commit<'_>,
    remote_name: &str,
    branch: &str,
) -> (r: AppResult<String>)
    ensures
        conflicted <==> (r matches Err(e) && e.plain("MERGE_CONFLICT"@, "Conflitos de merge detectados"@)),
        match r {
            Ok(outcome) => outcome@ == "merge"@,
            Err(e) => e.is_store_failure() || e.plain("MERGE_CONFLICT"@, "Conflitos de merge detectados"@),
        },
{
    proof {
        reveal_strlit("MERGE_CONFLICT");
        reveal_strlit("GIT_ERROR");
        assert("MERGE_CONFLICT"@.len() != "GIT_ERROR"@.len());
    }
    match refuse_conflicts(conflicted) {
        Ok(()) => {},
        Err(e) => {
            return Err(e);
        },
    }
    let tree_id = match index_write_tree_to(merged, repo) {
        Ok(id) => id,
        Err(e) => {
            return Err(AppError::git_error(e));
        },
    };
    let tree = match find_tree(repo, tree_id) {
        Ok(tree) => tree,
        Err(e) => {
            return Err(AppError::git_error(e));
        },
    };
    let message = pull_message(remote_name, branch);
    let mut parents: Vec<git2::Commit<'_>> = Vec::new();
    parents.push(tip);
    parents.push(fetched);
    match create_commit(repo, Some("HEAD"), signature, signature, message.as_str(), &tree, &parents) {
        Ok(_) => Ok("merge".to_owned()),
        Err(e) => Err(AppError::git_error(e)),
    }
}

/// Brings the commit `fetched` into the current branch, whose reference
/// is `reference` and whose tip is `tip`, once the ids are known:
/// `tip_id` is the id of the tip and `base_id` that of the merge base of
/// the two commits. The route is that of `merge_plan`. On the
/// fast-forward route the current reference moves to the fetched commit,
/// the result is checked out with local changes overwritten, and the
/// result is `fast-forward`. On the three-way route the trees are merged
/// and `conclude_pull` does the rest: the result is `merge`.
pub fn integrate_planned(
    repo: &git2::Repository,
    remote_name: &str,
    branch: &str,
    reference: &git2::Reference<'_>,
    tip: git2::Commit<'_>,
    fetched: git2::Commit<'_>,
    tip_id: &str,
    base_id: &str,
) -> (r: AppResult<String>)
    ensures
        match merge_plan(tip_id@, base_id@) {
            MergePlan::FastForward => match r {
                Ok(outcome) => outcome@ == "fast-forward"@,
                Err(e) => e.is_store_failure(),
            },
            MergePlan::ThreeWay => match r {
                Ok(outcome) => outcome@ == "merge"@,
                Err(e) => e.is_store_failure() || e.plain(
                    "MERGE_CONFLICT"@,
                    "Conflitos de merge detectados"@,
                ),
            },
        },
{
    match plan_merge(tip_id, base_id) {
        MergePlan::FastForward => {
            let head_name = match reference_name(reference) {
                Some(name) => name,
                None => "HEAD".to_owned(),
            };
            match set_reference(repo, head_name.as_str(), commit_id(&fetched), true, "pull: Fast-forward") {
                Ok(_) => {},
                Err(e) => {
                    return Err(AppError::git_error(e));
                },
            }
            let mut options = forced_checkout();
            match checkout_head(repo, Some(&mut options)) {
                Ok(()) => Ok("fast-forward".to_owned()),
                Err(e) => Err(AppError::git_error(e)),
            }
        },
        MergePlan::ThreeWay => {
            let signature = match default_signature(repo) {
                Ok(signature) => signature,
                Err(e) => {
                    return Err(AppError::git_error(e));
                },
            };
            let mut merged = match merge_commits(repo, &tip, &fetched) {
                Ok(merged) => merged,
                Err(e) => {
                    return Err(AppError::git_error(e));
                },
            };
            let conflicted = index_has_conflicts(&merged);
            conclude_pull(repo, &mut merged, conflicted, &signature, tip, fetched, remote_name, branch)
        },
    }
}

/// Brings the commit `fetched` into the current branch, once the ids of
/// the tip and of the fetched commit are known. When they are the same
/// nothing is asked of the store and the result is `already-up-to-date`.
/// Otherwise the merge base is read and `integrate_planned` does the rest:
/// the result is `fast-forward` or `merge`.
pub fn pull_known(
    repo: &git2::Repository,
    remote_name: &str,
    branch: &str,
    reference: &git2::Reference<'_>,
    tip: git2::Commit<'_>,
    fetched: git2::Commit<'_>,
    tip_id: &str,
    fetched_id: &str,
) -> (r: AppResult<String>)
    ensures
        match pull_plan(tip_id@, fetched_id@) {
            PullPlan::UpToDate => r matches Ok(outcome) && outcome@ == "already-up-to-date"@,
            PullPlan::Integrate => match r {
                Ok(outcome) => outcome@ == "fast-forward"@ || outcome@ == "merge"@,
                Err(e) => e.is_store_failure() || e.plain(
                    "MERGE_CONFLICT"@,
                    "Conflitos de merge detectados"@,
                ),
            },
        },
{
    if plan_pull(tip_id, fetched_id) == PullPlan::UpToDate {
        return Ok("already-up-to-date".to_owned());
    }
    let base = match merge_base(repo, commit_id(&tip), commit_id(&fetched)) {
        Ok(base) => base,
        Err(e) => {
            return Err(AppError::git_error(e));
        },
    };
    let base_hex = oid_hex(base);
    integrate_planned(repo, remote_name, branch, reference, tip, fetched, tip_id, base_hex.as_str())
}

/// Brings what was last fetched into the current branch: the second half
/// of a pull, after the fetch.
///
/// When the fetched commit is the current tip nothing is done and the
/// result is `already-up-to-date`. When the merge base of the two is the
/// current tip, the current reference moves to the fetched commit, the
/// result is checked out with local changes overwritten, and the result is
/// `fast-forward`. Otherwise the trees are merged: on conflicts the call
/// fails with `MERGE_CONFLICT`; without, a commit with both as parents is
/// made and the result is `merge`. The two commits are read here; what
/// follows from them is `pull_known`.
pub fn finish_pull(repo: &git2::Repository, remote_name: &str, branch: &str) -> (r: AppResult<String>)
    ensures
        match r {
            Ok(outcome) => outcome@ == "already-up-to-date"@ || outcome@ == "fast-forward"@ || outcome@
                == "merge"@,
            Err(e) => e.is_store_failure() || e.plain("MERGE_CONFLICT"@, "Conflitos de merge detectados"@),
        },
{
    let fetch_head = match find_reference(repo, "FETCH_HEAD") {
        Ok(reference) => reference,
        Err(e) => {
            return Err(AppError::git_error(e));
        },
    };
    let fetched = match peel_to_commit(&fetch_head) {
        Ok(commit) => commit,
        Err(e) => {
            return Err(AppError::git_error(e));
        },
    };
    let reference = match head(repo) {
        Ok(reference) => reference,
        Err(e) => {
            return Err(AppError::git_error(e));
        },
    };
    let tip = match peel_to_commit(&reference) {
        Ok(commit) => commit,
        Err(e) => {
            return Err(AppError::git_error(e));
        },
    };
    let tip_hex = oid_hex(commit_id(&tip));
    let fetched_hex = oid_hex(commit_id(&fetched));
    pull_known(
        repo,
        remote_name,
        branch,
        &reference,
        tip,
        fetched,
        tip_hex.as_str(),
        fetched_hex.as_str(),
    )
}

} // verus!
