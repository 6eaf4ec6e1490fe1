//! The status of a repository: which paths are staged, changed, untracked
//! or in conflict, how far the current branch is from its upstream, and
//! what operation is in progress.

use vstd::prelude::*;
use crate::branch::shorthand_or_head;
use crate::error::AppError;
use crate::error::AppResult;
use crate::store::refs::branch_reference;
use crate::store::refs::branch_upstream;
use crate::store::refs::BranchScope;
use crate::store::refs::find_branch;
use crate::store::refs::graph_ahead_behind;
use crate::store::refs::head;
use crate::store::refs::oid_hex;
use crate::store::refs::reference_shorthand;
use crate::store::refs::reference_target;
use crate::store::worktree::repo_state;
use crate::store::worktree::RepoState;
use crate::store::worktree::status_records;
use crate::store::worktree::StatusRecord;
use crate::text::head_chars;
use crate::text::take_chars;

verus! {

/// How a file differs.
#[derive(Debug, Clone, Copy, PartialEq, Eq, Structural)]
pub enum FileStatusType {
    Added,
    Modified,
    Deleted,
    Renamed,
    Copied,
    Untracked,
    Ignored,
    Conflicted,
}

/// One changed file.
#[derive(Debug, Clone)]
pub struct FileStatus {
    pub path: String,
    pub status: FileStatusType,
    pub is_binary: bool,
}

/// The status of a repository.
#[derive(Debug, Clone)]
pub struct RepoStatus {
    pub current_branch: String,
    pub head_commit: Option<String>,
    pub staged_files: Vec<FileStatus>,
    pub unstaged_files: Vec<FileStatus>,
    pub untracked_files: Vec<String>,
    pub conflicted_files: Vec<String>,
    pub ahead: usize,
    pub behind: usize,
    pub is_rebasing: bool,
    pub is_merging: bool,
    pub is_cherry_picking: bool,
}

/// The four lists that the status entries are sorted into.
#[derive(Debug, Clone)]
pub struct StatusLists {
    pub staged_files: Vec<FileStatus>,
    pub unstaged_files: Vec<FileStatus>,
    pub untracked_files: Vec<String>,
    pub conflicted_files: Vec<String>,
}

/// The path an entry is listed under; empty when the store has none that
/// is valid UTF-8.
pub open spec fn entry_path(record: StatusRecord) -> Seq<char> {
    match record.path {
        Some(p) => p@,
        None => Seq::empty(),
    }
}

/// How an entry shows among the staged files, if it does: a conflicted
/// entry never does; otherwise the first of new, modified, deleted and
/// renamed that the index side reports.
pub open spec fn staged_kind(record: StatusRecord) -> Option<FileStatusType> {
    if record.conflicted {
        None
    } else if record.index_new {
        Some(FileStatusType::Added)
    } else if record.index_modified {
        Some(FileStatusType::Modified)
    } else if record.index_deleted {
        Some(FileStatusType::Deleted)
    } else if record.index_renamed {
        Some(FileStatusType::Renamed)
    } else {
        None
    }
}

/// How an entry shows among the unstaged files, if it does: neither a
/// conflicted nor an untracked entry does; otherwise modified comes before
/// deleted.
pub open spec fn unstaged_kind(record: StatusRecord) -> Option<FileStatusType> {
    if record.conflicted || record.wt_new {
        None
    } else if record.wt_modified {
        Some(FileStatusType::Modified)
    } else if record.wt_deleted {
        Some(FileStatusType::Deleted)
    } else {
        None
    }
}

/// The staged files among `records`, in order, each with its kind.
pub open spec fn staged_of(records: Seq<StatusRecord>) -> Seq<(Seq<char>, FileStatusType)>
    decreases records.len(),
{
    if records.len() == 0 {
        seq![]
    } else {
        let rest = staged_of(records.drop_last());
        match staged_kind(records.last()) {
            Some(kind) => rest.push((entry_path(records.last()), kind)),
            None => rest,
        }
    }
}

/// The unstaged files among `records`, in order, each with its kind.
pub open spec fn unstaged_of(records: Seq<StatusRecord>) -> Seq<(Seq<char>, FileStatusType)>
    decreases records.len(),
{
    if records.len() == 0 {
        seq![]
    } else {
        let rest = unstaged_of(records.drop_last());
        match unstaged_kind(records.last()) {
            Some(kind) => rest.push((entry_path(records.last()), kind)),
            None => rest,
        }
    }
}

/// The paths among `records` that are untracked and not in conflict.
pub open spec fn untracked_of(records: Seq<StatusRecord>) -> Seq<Seq<char>>
    decreases records.len(),
{
    if records.len() == 0 {
        seq![]
    } else {
        let rest = untracked_of(records.drop_last());
        if !records.last().conflicted && records.last().wt_new {
            rest.push(entry_path(records.last()))
        } else {
            rest
        }
    }
}

/// The paths among `records` that are in conflict.
pub open spec fn conflicted_of(records: Seq<StatusRecord>) -> Seq<Seq<char>>
    decreases records.len(),
{
    if records.len() == 0 {
        seq![]
    } else {
        let rest = conflicted_of(records.drop_last());
        if records.last().conflicted {
            rest.push(entry_path(records.last()))
        } else {
            rest
        }
    }
}

/// Paths and kinds of a list of files.
pub open spec fn files_view(files: Seq<FileStatus>) -> Seq<(Seq<char>, FileStatusType)> {
    Seq::new(files.len(), |i: int| (files[i].path@, files[i].status))
}

/// The texts of a list of strings.
pub open spec fn names_view(names: Seq<String>) -> Seq<Seq<char>> {
    Seq::new(names.len(), |i: int| names[i]@)
}

impl StatusLists {
    /// The lists are exactly what `records` sort into, and no file is
    /// flagged binary.
    pub open spec fn sorts(self, records: Seq<StatusRecord>) -> bool {
        &&& files_view(self.staged_files@) == staged_of(records)
        &&& files_view(self.unstaged_files@) == unstaged_of(records)
        &&& names_view(self.untracked_files@) == untracked_of(records)
        &&& names_view(self.conflicted_files@) == conflicted_of(records)
        &&& forall|i: int| 0 <= i < self.staged_files@.len() ==> !(#[trigger] self.staged_files@[i]).is_binary
        &&& forall|i: int|
            0 <= i < self.unstaged_files@.len() ==> !(#[trigger] self.unstaged_files@[i]).is_binary
    }
}

fn path_of(record: &StatusRecord) -> (path: String)
    ensures
        path@ == entry_path(*record),
{
    match &record.path {
        Some(p) => p.clone(),
        None => String::new(),
    }
}

/// Sorts the status entries into staged, unstaged, untracked and
/// conflicted, keeping their order.
pub fn sort_entries(records: &Vec<StatusRecord>) -> (lists: StatusLists)
    ensures
        lists.sorts(records@),
{
    let mut staged_files: Vec<FileStatus> = Vec::new();
    let mut unstaged_files: Vec<FileStatus> = Vec::new();
    let mut untracked_files: Vec<String> = Vec::new();
    let mut conflicted_files: Vec<String> = Vec::new();
    let mut i: usize = 0;
    assert(files_view(staged_files@) =~= staged_of(records@.take(0)));
    assert(files_view(unstaged_files@) =~= unstaged_of(records@.take(0)));
    assert(names_view(untracked_files@) =~= untracked_of(records@.take(0)));
    assert(names_view(conflicted_files@) =~= conflicted_of(records@.take(0)));
    while i < records.len()
        invariant
            i <= records.len(),
            files_view(staged_files@) == staged_of(records@.take(i as int)),
            files_view(unstaged_files@) == unstaged_of(records@.take(i as int)),
            names_view(untracked_files@) == untracked_of(records@.take(i as int)),
            names_view(conflicted_files@) == conflicted_of(records@.take(i as int)),
            forall|k: int| 0 <= k < staged_files@.len() ==> !(#[trigger] staged_files@[k]).is_binary,
            forall|k: int| 0 <= k < unstaged_files@.len() ==> !(#[trigger] unstaged_files@[k]).is_binary,
        decreases records.len() - i,
    {
        let record = &records[i];
        let ghost staged_before = files_view(staged_files@);
        let ghost unstaged_before = files_view(unstaged_files@);
        let ghost untracked_before = names_view(untracked_files@);
        let ghost conflicted_before = names_view(conflicted_files@);
        assert(records@.take(i + 1).drop_last() =~= records@.take(i as int));
        assert(records@.take(i + 1).last() == *record);
        if record.conflicted {
            conflicted_files.push(path_of(record));
            assert(names_view(conflicted_files@) =~= conflicted_before.push(entry_path(*record)));
        } else {
            if record.index_new {
                staged_files.push(
                    FileStatus { path: path_of(record), status: FileStatusType::Added, is_binary: false },
                );
                assert(files_view(staged_files@) =~= staged_before.push(
                    (entry_path(*record), FileStatusType::Added),
                ));
            } else if record.index_modified {
                staged_files.push(
                    FileStatus { path: path_of(record), status: FileStatusType::Modified, is_binary: false },
                );
                assert(files_view(staged_files@) =~= staged_before.push(
                    (entry_path(*record), FileStatusType::Modified),
                ));
            } else if record.index_deleted {
                staged_files.push(
                    FileStatus { path: path_of(record), status: FileStatusType::Deleted, is_binary: false },
                );
                assert(files_view(staged_files@) =~= staged_before.push(
                    (entry_path(*record), FileStatusType::Deleted),
                ));
            } else if record.index_renamed {
                staged_files.push(
                    FileStatus { path: path_of(record), status: FileStatusType::Renamed, is_binary: false },
                );
                assert(files_view(staged_files@) =~= staged_before.push(
                    (entry_path(*record), FileStatusType::Renamed),
                ));
            }
            if record.wt_new {
                untracked_files.push(path_of(record));
                assert(names_view(untracked_files@) =~= untracked_before.push(entry_path(*record)));
            } else if record.wt_modified {
                unstaged_files.push(
                    FileStatus { path: path_of(record), status: FileStatusType::Modified, is_binary: false },
                );
                assert(files_view(unstaged_files@) =~= unstaged_before.push(
                    (entry_path(*record), FileStatusType::Modified),
                ));
            } else if record.wt_deleted {
                unstaged_files.push(
                    FileStatus { path: path_of(record), status: FileStatusType::Deleted, is_binary: false },
                );
                assert(files_view(unstaged_files@) =~= unstaged_before.push(
                    (entry_path(*record), FileStatusType::Deleted),
                ));
            }
        }
        i = i + 1;
    }
    assert(records@.take(records.len() as int) =~= records@);
    StatusLists { staged_files, unstaged_files, untracked_files, conflicted_files }
}

/// Whether a rebase of any flavour is in progress.
pub open spec fn rebasing(state: RepoState) -> bool {
    state == RepoState::Rebase || state == RepoState::RebaseInteractive || state
        == RepoState::RebaseMerge
}

/// Whether a rebase of any flavour is in progress.
pub fn is_rebase_state(state: RepoState) -> (r: bool)
    ensures
        r == rebasing(state),
{
    match state {
        RepoState::Rebase => true,
        RepoState::RebaseInteractive => true,
        RepoState::RebaseMerge => true,
        _ => false,
    }
}

/// How far the current branch is ahead of and behind its upstream. Zero
/// both ways when `HEAD` is no local branch or the branch has no upstream.
fn get_ahead_behind(repo: &git2::Repository) -> (r: AppResult<(usize, usize)>)
    ensures
        r matches Err(e) ==> e.is_store_failure() || e.plain("INTERNAL_ERROR"@, "No HEAD"@) || e.plain(
            "INTERNAL_ERROR"@,
            "No upstream target"@,
        ),
{
    let reference = match head(repo) {
        Ok(reference) => reference,
        Err(e) => {
            return Err(AppError::git_error(e));
        },
    };
    let head_id = match reference_target(&reference) {
        Some(id) => id,
        None => {
            return Err(AppError::internal("No HEAD"));
        },
    };
    let name = shorthand_or_head(reference_shorthand(&reference));
    let branch = match find_branch(repo, name.as_str(), BranchScope::Local) {
        Ok(branch) => branch,
        Err(_) => {
            return Ok((0, 0));
        },
    };
    let upstream = match branch_upstream(&branch) {
        Ok(upstream) => upstream,
        Err(_) => {
            return Ok((0, 0));
        },
    };
    let upstream_id = match reference_target(branch_reference(&upstream)) {
        Some(id) => id,
        None => {
            return Err(AppError::internal("No upstream target"));
        },
    };
    match graph_ahead_behind(repo, head_id, upstream_id) {
        Ok(distance) => Ok(distance),
        Err(e) => Err(AppError::git_error(e)),
    }
}

/// What `HEAD` resolves to: the short name of the reference, if it is
/// valid UTF-8, and the id of its target, if the reference is a direct one.
#[derive(Debug, Clone)]
pub struct HeadRecord {
    pub shorthand: Option<String>,
    pub target: Option<String>,
}

/// The name under which the current branch is shown: the short name of
/// `HEAD`, or `HEAD` itself when there is none.
pub open spec fn branch_label(head: Option<HeadRecord>) -> Seq<char> {
    match head {
        Some(found) => match found.shorthand {
            Some(name) => name@,
            None => "HEAD"@,
        },
        None => "HEAD"@,
    }
}

/// The first seven digits of the target of `HEAD`, if it has one.
pub open spec fn head_label(head: Option<HeadRecord>) -> Option<Seq<char>> {
    match head {
        Some(found) => match found.target {
            Some(id) => Some(head_chars(id@, 7)),
            None => None,
        },
        None => None,
    }
}

impl RepoStatus {
    /// The status is put together from what the store reports: the labels
    /// of `HEAD`, the four lists as they are, the distance to the upstream
    /// or zero both ways when it is not known, and the flags of the state.
    pub open spec fn assembles(
        self,
        head: Option<HeadRecord>,
        lists: StatusLists,
        distance: Option<(usize, usize)>,
        state: RepoState,
    ) -> bool {
        &&& self.current_branch@ == branch_label(head)
        &&& match self.head_commit {
            Some(id) => head_label(head) == Some(id@),
            None => head_label(head) is None,
        }
        &&& self.staged_files == lists.staged_files
        &&& self.unstaged_files == lists.unstaged_files
        &&& self.untracked_files == lists.untracked_files
        &&& self.conflicted_files == lists.conflicted_files
        &&& self.ahead == match distance {
            Some(d) => d.0,
            None => 0,
        }
        &&& self.behind == match distance {
            Some(d) => d.1,
            None => 0,
        }
        &&& self.is_rebasing == rebasing(state)
        &&& self.is_merging == (state == RepoState::Merge)
        &&& self.is_cherry_picking == (state == RepoState::CherryPick)
    }

    /// What holds of every status: the four lists are what some listing of
    /// status entries sorts into, the head commit is a seven-digit short id,
    /// and the progress flags exclude each other.
    pub open spec fn well_formed(self) -> bool {
        &&& exists|records: Seq<StatusRecord>|
            {
                &&& files_view(self.staged_files@) == #[trigger] staged_of(records)
                &&& files_view(self.unstaged_files@) == unstaged_of(records)
                &&& names_view(self.untracked_files@) == untracked_of(records)
                &&& names_view(self.conflicted_files@) == conflicted_of(records)
            }
        &&& forall|i: int| 0 <= i < self.staged_files@.len() ==> !(#[trigger] self.staged_files@[i]).is_binary
        &&& forall|i: int|
            0 <= i < self.unstaged_files@.len() ==> !(#[trigger] self.unstaged_files@[i]).is_binary
        &&& self.head_commit matches Some(id) ==> id@.len() == 7
        &&& !(self.is_rebasing && self.is_merging)
        &&& !(self.is_rebasing && self.is_cherry_picking)
        &&& !(self.is_merging && self.is_cherry_picking)
    }
}

/// The status put together from what the store reports.
pub fn repo_status(
    head: Option<HeadRecord>,
    lists: StatusLists,
    distance: Option<(usize, usize)>,
    state: RepoState,
) -> (status: RepoStatus)
    ensures
        status.assembles(head, lists, distance, state),
{
    let (current_branch, head_commit) = match head {
        Some(found) => {
            let name = match found.shorthand {
                Some(name) => name,
                None => "HEAD".to_owned(),
            };
            let id = match found.target {
                Some(id) => Some(take_chars(id.as_str(), 7)),
                None => None,
            };
            (name, id)
        },
        None => ("HEAD".to_owned(), None),
    };
    let (ahead, behind) = match distance {
        Some(distance) => distance,
        None => (0, 0),
    };
    RepoStatus {
        current_branch,
        head_commit,
        staged_files: lists.staged_files,
        unstaged_files: lists.unstaged_files,
        untracked_files: lists.untracked_files,
        conflicted_files: lists.conflicted_files,
        ahead,
        behind,
        is_rebasing: is_rebase_state(state),
        is_merging: state == RepoState::Merge,
        is_cherry_picking: state == RepoState::CherryPick,
    }
}

/// The status of the repository. The branch is named `HEAD` when there is
/// no current branch; the distance to the upstream is zero both ways when
/// it cannot be had.
pub fn get_status(repo: &git2::Repository) -> (r: AppResult<RepoStatus>)
    ensures
        match r {
            Ok(status) => status.well_formed(),
            Err(e) => e.is_store_failure(),
        },
{
    let head = match head(repo) {
        Ok(reference) => Some(
            HeadRecord {
                shorthand: reference_shorthand(&reference),
                target: match reference_target(&reference) {
                    Some(id) => Some(oid_hex(id)),
                    None => None,
                },
            },
        ),
        Err(_) => None,
    };
    let records = match status_records(repo, true, false, true) {
        Ok(records) => records,
        Err(e) => {
            return Err(AppError::git_error(e));
        },
    };
    let lists = sort_entries(&records);
    let distance = match get_ahead_behind(repo) {
        Ok(distance) => Some(distance),
        Err(_) => None,
    };
    let state = repo_state(repo);
    let status = repo_status(head, lists, distance, state);
    assert(files_view(status.staged_files@) == staged_of(records@));
    Ok(status)
}

} // verus!
