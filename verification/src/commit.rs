//! Commits: reading history, recording the index as a commit, staging and
//! unstaging paths, and applying, reverting or resetting to a commit.

use vstd::prelude::*;
use crate::branch::forced_checkout;
use crate::conflict::refuse_conflicts;
use crate::error::AppError;
use crate::error::AppResult;
use crate::store::commits::amend_commit;
use crate::store::commits::commit_as_object;
use crate::store::commits::commit_author;
use crate::store::commits::commit_committer;
use crate::store::commits::commit_id;
use crate::store::commits::commit_message;
use crate::store::commits::commit_parent_count;
use crate::store::commits::commit_parent_ids;
use crate::store::commits::commit_summary;
use crate::store::commits::create_commit as store_create_commit;
use crate::store::commits::default_signature;
use crate::store::commits::find_commit;
use crate::store::commits::find_tree;
use crate::store::commits::PersonRecord;
use crate::store::commits::revwalk;
use crate::store::commits::revwalk_next;
use crate::store::commits::revwalk_push;
use crate::store::commits::revwalk_push_head;
use crate::store::commits::revwalk_set_sorting;
use crate::store::commits::tree_entry;
use crate::store::commits::tree_entry_blob;
use crate::store::commits::tree_entry_filemode;
use crate::store::commits::tree_entry_id;
use crate::store::paths::path_exists;
use crate::store::paths::path_from;
use crate::store::paths::path_join;
use crate::store::refs::head;
use crate::store::refs::is_oid_text;
use crate::store::refs::oid_from_hex;
use crate::store::refs::oid_hex;
use crate::store::refs::peel_to_commit;
use crate::store::refs::peel_to_tree;
use crate::store::refs::refname_to_id;
use crate::store::worktree::checkout_head;
use crate::store::worktree::checkout_path;
use crate::store::worktree::cherrypick;
use crate::store::worktree::cleanup_state;
use crate::store::worktree::EntryFields;
use crate::store::worktree::given_paths;
use crate::store::worktree::index;
use crate::store::worktree::index_add_all;
use crate::store::worktree::index_add_frombuffer;
use crate::store::worktree::index_add_path;
use crate::store::worktree::index_entry;
use crate::store::worktree::index_has_conflicts;
use crate::store::worktree::index_remove_path;
use crate::store::worktree::index_write;
use crate::store::worktree::index_write_tree;
use crate::store::worktree::overwrites;
use crate::store::worktree::reset;
use crate::store::worktree::ResetMode;
use crate::store::worktree::revert;
use crate::text::after_first;
use crate::text::chars_of;
use crate::text::has_nul;
use crate::text::head_chars;
use crate::text::join_chars;
use crate::text::join_lines;
use crate::text::lines_of;
use crate::text::rows;
use crate::text::same_text;
use crate::text::split_lines;
use crate::text::string_of;
use crate::text::take_chars;
use crate::text::trim_chars;
use crate::text::trimmed;

verus! {

/// One commit as it is shown: ids, message, both signatures and parents.
#[derive(Debug, Clone)]
pub struct CommitInfo {
    pub hash: String,
    pub short_hash: String,
    pub message: String,
    pub summary: String,
    pub body: Option<String>,
    pub author_name: String,
    pub author_email: String,
    pub author_date: i64,
    pub committer_name: String,
    pub committer_email: String,
    pub committer_date: i64,
    pub parents: Vec<String>,
    pub is_merge: bool,
}

/// What the object store holds about one commit.
#[derive(Debug, Clone)]
pub struct CommitRecord {
    pub id: String,
    pub message: Option<String>,
    pub summary: Option<String>,
    pub author: PersonRecord,
    pub committer: PersonRecord,
    pub parents: Vec<String>,
    pub parent_count: usize,
}

/// A text that may be missing, read as empty when it is.
pub open spec fn text_or_empty(text: Option<String>) -> Seq<char> {
    match text {
        Some(t) => t@,
        None => Seq::empty(),
    }
}

/// The body of a message: what follows its first line, without the
/// whitespace around it.
pub open spec fn body_text(message: Seq<char>) -> Seq<char> {
    trimmed(join_lines(after_first(split_lines(message))))
}

/// The texts of a list of strings.
pub open spec fn texts(items: Seq<String>) -> Seq<Seq<char>> {
    Seq::new(items.len(), |i: int| items[i]@)
}

impl CommitInfo {
    /// The entry is what `record` shows: the full and the short id, the
    /// message and its summary, the body when it is not empty, both
    /// signatures with missing texts read as empty, the parents' ids, and
    /// the merge flag, set for more than one parent.
    pub open spec fn renders(self, record: CommitRecord) -> bool {
        &&& self.hash@ == record.id@
        &&& self.short_hash@ == head_chars(record.id@, 7)
        &&& self.message@ == text_or_empty(record.message)
        &&& self.summary@ == text_or_empty(record.summary)
        &&& match self.body {
            Some(body) => body@ == body_text(text_or_empty(record.message)) && body@.len() > 0,
            None => body_text(text_or_empty(record.message)).len() == 0,
        }
        &&& self.author_name@ == text_or_empty(record.author.name)
        &&& self.author_email@ == text_or_empty(record.author.email)
        &&& self.author_date == record.author.seconds
        &&& self.committer_name@ == text_or_empty(record.committer.name)
        &&& self.committer_email@ == text_or_empty(record.committer.email)
        &&& self.committer_date == record.committer.seconds
        &&& texts(self.parents@) == texts(record.parents@)
        &&& self.is_merge == (record.parent_count > 1)
    }

    /// What holds of every entry read from the store: the id has forty
    /// digits and the short id is its first seven; a body is never empty.
    pub open spec fn well_formed(self) -> bool {
        &&& self.hash@.len() == 40
        &&& self.short_hash@ == self.hash@.take(7)
        &&& self.body matches Some(body) ==> body@.len() > 0
    }
}

fn owned_or_empty(text: &Option<String>) -> (out: String)
    ensures
        out@ == text_or_empty(*text),
{
    match text {
        Some(t) => t.clone(),
        None => String::new(),
    }
}

/// The body of `message`, if it has one.
pub fn message_body(message: &str) -> (body: Option<String>)
    ensures
        match body {
            Some(text) => text@ == body_text(message@) && text@.len() > 0,
            None => body_text(message@).len() == 0,
        },
{
    let chars = chars_of(message);
    let mut lines = lines_of(&chars);
    let ghost all = rows(lines@);
    if lines.len() > 0 {
        lines.remove(0);
        assert(rows(lines@) =~= all.skip(1));
    }
    assert(rows(lines@) == after_first(split_lines(message@)));
    let joined = join_chars(&lines);
    let kept = trim_chars(&joined);
    if kept.len() == 0 {
        None
    } else {
        Some(string_of(&kept))
    }
}

/// The entry that shows `record`.
pub fn commit_info(record: &CommitRecord) -> (info: CommitInfo)
    ensures
        info.renders(*record),
{
    let message = owned_or_empty(&record.message);
    let body = message_body(message.as_str());
    let mut parents: Vec<String> = Vec::new();
    let mut i: usize = 0;
    while i < record.parents.len()
        invariant
            i <= record.parents.len(),
            texts(parents@) == texts(record.parents@.take(i as int)),
        decreases record.parents.len() - i,
    {
        let ghost before = texts(parents@);
        parents.push(record.parents[i].clone());
        assert(texts(parents@) =~= before.push(record.parents@[i as int]@));
        assert(texts(record.parents@.take(i + 1)) =~= texts(record.parents@.take(i as int)).push(
            record.parents@[i as int]@,
        ));
        i = i + 1;
    }
    assert(record.parents@.take(record.parents.len() as int) =~= record.parents@);
    CommitInfo {
        hash: record.id.clone(),
        short_hash: take_chars(record.id.as_str(), 7),
        message,
        summary: owned_or_empty(&record.summary),
        body,
        author_name: owned_or_empty(&record.author.name),
        author_email: owned_or_empty(&record.author.email),
        author_date: record.author.seconds,
        committer_name: owned_or_empty(&record.committer.name),
        committer_email: owned_or_empty(&record.committer.email),
        committer_date: record.committer.seconds,
        parents,
        is_merge: record.parent_count > 1,
    }
}

/// What the object store holds about `commit`.
fn read_commit(commit: &git2::Commit<'_>) -> (record: CommitRecord)
    ensures
        record.id@.len() == 40,
{
    let ids = commit_parent_ids(commit);
    let mut parents: Vec<String> = Vec::new();
    let mut i: usize = 0;
    while i < ids.len()
        invariant
            i <= ids.len(),
        decreases ids.len() - i,
    {
        parents.push(oid_hex(ids[i]));
        i = i + 1;
    }
    CommitRecord {
        id: oid_hex(commit_id(commit)),
        message: commit_message(commit),
        summary: commit_summary(commit),
        author: commit_author(commit),
        committer: commit_committer(commit),
        parents,
        parent_count: commit_parent_count(commit),
    }
}

fn commit_to_info(commit: &git2::Commit<'_>) -> (info: CommitInfo)
    ensures
        info.well_formed(),
{
    let record = read_commit(commit);
    commit_info(&record)
}

/// The full name of the local branch `name`.
pub open spec fn heads_ref_text(name: Seq<char>) -> Seq<char> {
    "refs/heads/"@ + name
}

/// The full name of the branch `name` as tracked from the remote `origin`.
pub open spec fn origin_ref_text(name: Seq<char>) -> Seq<char> {
    "refs/remotes/origin/"@ + name
}

/// The full name of the local branch `name`.
pub fn heads_ref(name: &str) -> (out: String)
    ensures
        out@ == heads_ref_text(name@),
{
    let mut out = "refs/heads/".to_owned();
    out.push_str(name);
    out
}

/// The full name of the branch `name` as tracked from the remote `origin`.
pub fn origin_ref(name: &str) -> (out: String)
    ensures
        out@ == origin_ref_text(name@),
{
    let mut out = "refs/remotes/origin/".to_owned();
    out.push_str(name);
    out
}

/// How many commits a listing returns when the caller names no limit.
pub const DEFAULT_COMMIT_LIMIT: usize = 100;

/// The window of a listing: the limit that is asked for, or a hundred, and
/// the number of commits to pass over, or none.
pub fn commit_window(limit: Option<usize>, skip: Option<usize>) -> (window: (usize, usize))
    ensures
        window.0 == match limit {
            Some(n) => n,
            None => DEFAULT_COMMIT_LIMIT,
        },
        window.1 == match skip {
            Some(n) => n,
            None => 0,
        },
{
    (
        match limit {
            Some(n) => n,
            None => DEFAULT_COMMIT_LIMIT,
        },
        match skip {
            Some(n) => n,
            None => 0,
        },
    )
}

/// What to do with the next commit of a walk.
#[derive(Debug, Clone, Copy, PartialEq, Eq, Structural)]
pub enum WalkStep {
    /// The commit is among those to pass over.
    Pass,
    /// The commit is returned.
    Take,
    /// Enough commits have been returned: the walk ends.
    Stop,
}

/// What to do with the next commit when `skipped` of `skip` commits have been
/// passed over and `taken` of at most `limit` have been returned.
pub open spec fn walk_step(skipped: nat, skip: nat, taken: nat, limit: nat) -> WalkStep {
    if skipped < skip {
        WalkStep::Pass
    } else if taken >= limit {
        WalkStep::Stop
    } else {
        WalkStep::Take
    }
}

/// What to do with the next commit of a walk.
pub fn next_step(skipped: usize, skip: usize, taken: usize, limit: usize) -> (step: WalkStep)
    ensures
        step == walk_step(skipped as nat, skip as nat, taken as nat, limit as nat),
{
    if skipped < skip {
        WalkStep::Pass
    } else if taken >= limit {
        WalkStep::Stop
    } else {
        WalkStep::Take
    }
}

/// The positions, among the first `seen` commits that a walk yields, of
/// the commits that are returned when `walk_step` decides on each in turn.
pub open spec fn taken_positions(seen: nat, skip: nat, limit: nat) -> Seq<int>
    decreases seen,
{
    if seen == 0 {
        seq![]
    } else {
        let before = taken_positions((seen - 1) as nat, skip, limit);
        let skipped = if seen - 1 < skip {
            (seen - 1) as nat
        } else {
            skip
        };
        if walk_step(skipped, skip, before.len(), limit) == WalkStep::Take {
            before.push(seen - 1)
        } else {
            before
        }
    }
}

/// Paging a walk. Deciding on each commit in turn with `walk_step` returns
/// exactly the window of the walk that starts after the first `skip`
/// commits and holds the next `limit` of them, or as many as are there.
pub proof fn law_walk_returns_window(seen: nat, skip: nat, limit: nat)
    ensures
        taken_positions(seen, skip, limit).len() == if seen <= skip {
            0
        } else if seen - skip <= limit {
            seen - skip
        } else {
            limit as int
        },
        forall|k: int|
            0 <= k < taken_positions(seen, skip, limit).len() ==> #[trigger] taken_positions(
                seen,
                skip,
                limit,
            )[k] == skip + k,
    decreases seen,
{
    if seen > 0 {
        law_walk_returns_window((seen - 1) as nat, skip, limit);
    }
}

/// Where the walk of a named branch starts.
#[derive(Debug, Clone, Copy, PartialEq, Eq, Structural)]
pub enum WalkStart {
    /// At the tip of the local branch of that name.
    Local,
    /// At the tip of the branch of that name of the remote `origin`.
    Origin,
    /// Nowhere: the history is empty.
    Nowhere,
}

/// The walk starts at the local branch when there is one, else at the
/// branch of `origin` when there is one, else nowhere.
pub open spec fn walk_start(local: bool, origin: bool) -> WalkStart {
    if local {
        WalkStart::Local
    } else if origin {
        WalkStart::Origin
    } else {
        WalkStart::Nowhere
    }
}

/// Where the walk of a named branch starts, given whether a local branch
/// has the name and whether a branch of `origin` has it.
pub fn plan_walk_start(local: bool, origin: bool) -> (start: WalkStart)
    ensures
        start == walk_start(local, origin),
{
    if local {
        WalkStart::Local
    } else if origin {
        WalkStart::Origin
    } else {
        WalkStart::Nowhere
    }
}

/// The history reachable from `branch`, or from `HEAD` when none is named,
/// newest first and children before parents: the first `skip` commits are
/// passed over and at most `limit` are returned. A branch name is tried as
/// a local branch first and as a branch of the remote `origin` second; a
/// name that is neither gives an empty history.
pub fn list_commits(repo: &git2::Repository, branch: Option<&str>, limit: usize, skip: usize) -> (r:
    AppResult<Vec<CommitInfo>>)
    ensures
        match r {
            Ok(commits) => {
                &&& commits@.len() <= limit
                &&& forall|i: int| 0 <= i < commits@.len() ==> (#[trigger] commits@[i]).well_formed()
            },
            Err(e) => e.is_store_failure(),
        },
{
    let mut walk = match revwalk(repo) {
        Ok(walk) => walk,
        Err(e) => {
            return Err(AppError::git_error(e));
        },
    };
    match revwalk_set_sorting(&mut walk, true, true) {
        Ok(()) => {},
        Err(e) => {
            return Err(AppError::git_error(e));
        },
    }
    match branch {
        Some(name) => {
            let local = match refname_to_id(repo, heads_ref(name).as_str()) {
                Ok(id) => Some(id),
                Err(_) => None,
            };
            let origin = if local.is_none() {
                match refname_to_id(repo, origin_ref(name).as_str()) {
                    Ok(id) => Some(id),
                    Err(_) => None,
                }
            } else {
                None
            };
            let start = match plan_walk_start(local.is_some(), origin.is_some()) {
                WalkStart::Local => local,
                WalkStart::Origin => origin,
                WalkStart::Nowhere => None,
            };
            match start {
                Some(id) => match revwalk_push(&mut walk, id) {
                    Ok(()) => {},
                    Err(e) => {
                        return Err(AppError::git_error(e));
                    },
                },
                None => {},
            }
        },
        None => match revwalk_push_head(&mut walk) {
            Ok(()) => {},
            Err(e) => {
                return Err(AppError::git_error(e));
            },
        },
    }
    let mut commits: Vec<CommitInfo> = Vec::new();
    let mut skipped: usize = 0;
    let mut done = false;
    while !done
        invariant
            skipped <= skip,
            commits@.len() <= limit,
            forall|i: int| 0 <= i < commits@.len() ==> (#[trigger] commits@[i]).well_formed(),
        decreases (skip - skipped) + (limit - commits@.len()) + (if done { 0int } else { 1int }),
    {
        match revwalk_next(&mut walk) {
            None => {
                done = true;
            },
            Some(Err(e)) => {
                return Err(AppError::git_error(e));
            },
            Some(Ok(id)) => match next_step(skipped, skip, commits.len(), limit) {
                WalkStep::Pass => {
                    skipped = skipped + 1;
                },
                WalkStep::Stop => {
                    done = true;
                },
                WalkStep::Take => match find_commit(repo, id) {
                    Ok(commit) => {
                        commits.push(commit_to_info(&commit));
                    },
                    Err(e) => {
                        return Err(AppError::git_error(e));
                    },
                },
            },
        }
    }
    Ok(commits)
}

/// The commit with id `hash`. Fails with `COMMIT_NOT_FOUND` when the hash
/// cannot be read as an object id or the store has no such commit.
pub fn get_commit(repo: &git2::Repository, hash: &str) -> (r: AppResult<CommitInfo>)
    ensures
        !is_oid_text(hash@) ==> r is Err,
        match r {
            Ok(info) => info.well_formed(),
            Err(e) => e.detailed("COMMIT_NOT_FOUND"@, "Commit não encontrado"@, hash@),
        },
{
    let id = match oid_from_hex(hash) {
        Ok(id) => id,
        Err(_) => {
            return Err(AppError::commit_not_found(hash));
        },
    };
    match find_commit(repo, id) {
        Ok(commit) => Ok(commit_to_info(&commit)),
        Err(_) => Err(AppError::commit_not_found(hash)),
    }
}

fn short_id(id: git2::Oid) -> (out: String)
    ensures
        out@.len() == 7,
{
    take_chars(oid_hex(id).as_str(), 7)
}

/// Which commit a request to commit writes.
#[derive(Debug, Clone, Copy, PartialEq, Eq, Structural)]
pub enum CommitPlan {
    /// The current tip is replaced: the new commit keeps the tip's parents.
    Amend,
    /// The new commit has the current tip as its only parent.
    OnTip,
    /// There is no tip yet: the new commit has no parent.
    Root,
    /// There is no tip to replace: nothing is written.
    NothingToAmend,
}

/// The commit that is written, given whether the tip is to be replaced
/// and whether `HEAD` could be read.
pub open spec fn commit_plan(amend: bool, has_head: bool) -> CommitPlan {
    if amend {
        if has_head {
            CommitPlan::Amend
        } else {
            CommitPlan::NothingToAmend
        }
    } else if has_head {
        CommitPlan::OnTip
    } else {
        CommitPlan::Root
    }
}

/// The commit that is written.
pub fn plan_commit(amend: bool, has_head: bool) -> (plan: CommitPlan)
    ensures
        plan == commit_plan(amend, has_head),
{
    if amend {
        if has_head {
            CommitPlan::Amend
        } else {
            CommitPlan::NothingToAmend
        }
    } else if has_head {
        CommitPlan::OnTip
    } else {
        CommitPlan::Root
    }
}

/// Records `tree` as a commit on `HEAD`, signed by `signature`, once
/// `HEAD` was read: `tip` is what reading it gave. The commit written is
/// that of `commit_plan`. Where there is nothing to amend the failure of
/// reading `HEAD` is returned and nothing is written. The result is the
/// short id of the new commit.
pub fn commit_on(
    repo: &git2::Repository,
    message: &str,
    amend: bool,
    signature: &git2::Signature<'_>,
    tree: &git2::Tree<'_>,
    tip: Result<git2::Reference<'_>, git2::Error>,
) -> (r: AppResult<String>)
    ensures
        commit_plan(amend, tip is Ok) == CommitPlan::NothingToAmend ==> r is Err,
        match r {
            Ok(id) => id@.len() == 7,
            Err(e) => e.is_store_failure(),
        },
{
    let plan = plan_commit(amend, tip.is_ok());
    let reference = match tip {
        Ok(reference) => reference,
        Err(e) => {
            if plan == CommitPlan::NothingToAmend {
                return Err(AppError::git_error(e));
            }
            let parents: Vec<git2::Commit<'_>> = Vec::new();
            return match store_create_commit(repo, Some("HEAD"), signature, signature, message, tree, &parents) {
                Ok(id) => Ok(short_id(id)),
                Err(e) => Err(AppError::git_error(e)),
            };
        },
    };
    let tip_commit = match peel_to_commit(&reference) {
        Ok(tip_commit) => tip_commit,
        Err(e) => {
            return Err(AppError::git_error(e));
        },
    };
    let written = if plan == CommitPlan::Amend {
        amend_commit(&tip_commit, Some("HEAD"), signature, signature, message, tree)
    } else {
        let mut parents: Vec<git2::Commit<'_>> = Vec::new();
        parents.push(tip_commit);
        store_create_commit(repo, Some("HEAD"), signature, signature, message, tree, &parents)
    };
    match written {
        Ok(id) => Ok(short_id(id)),
        Err(e) => Err(AppError::git_error(e)),
    }
}

/// Records the index as a commit on `HEAD` and returns its short id. With
/// `amend` the new commit replaces the current tip: it keeps the parents of
/// the tip, and the old tip is left behind for the store to reclaim.
/// Otherwise its parent is the current tip, or it has none when there is no
/// tip yet. Fails with `GIT_USER_NOT_CONFIGURED` when the repository has no
/// identity to sign with. The identity, the tree of the index and `HEAD`
/// are read here; what is written from them is `commit_on`.
pub fn create_commit(repo: &git2::Repository, message: &str, amend: bool) -> (r: AppResult<String>)
    ensures
        match r {
            Ok(id) => id@.len() == 7,
            Err(e) => e.is_store_failure() || e.code@ == "GIT_USER_NOT_CONFIGURED"@,
        },
{
    let signature = match default_signature(repo) {
        Ok(signature) => signature,
        Err(_) => {
            return Err(AppError::git_user_not_configured());
        },
    };
    let mut staged = match index(repo) {
        Ok(staged) => staged,
        Err(e) => {
            return Err(AppError::git_error(e));
        },
    };
    let tree_id = match index_write_tree(&mut staged) {
        Ok(id) => id,
        Err(e) => {
            return Err(AppError::git_error(e));
        },
    };
    let tree = match find_tree(repo, tree_id) {
        Ok(tree) => tree,
        Err(e) => {
            return Err(AppError::git_error(e));
        },
    };
    let tip = head(repo);
    commit_on(repo, message, amend, &signature, &tree, tip)
}

/// What staging a path comes to.
#[derive(Debug, Clone, Copy, PartialEq, Eq, Structural)]
pub enum StagePlan {
    /// The path is added to the index from the working tree.
    Add,
    /// The path is removed from the index.
    Remove,
}

/// A path is added exactly when a file exists there; otherwise its
/// removal is staged.
pub open spec fn stage_plan(exists: bool) -> StagePlan {
    if exists {
        StagePlan::Add
    } else {
        StagePlan::Remove
    }
}

/// What staging a path comes to.
pub fn plan_stage(exists: bool) -> (plan: StagePlan)
    ensures
        plan == stage_plan(exists),
{
    if exists {
        StagePlan::Add
    } else {
        StagePlan::Remove
    }
}

/// Stages the given paths: a path that exists below `repo_path` is added
/// from the working tree, a path that does not is removed from the index.
pub fn stage_files(repo: &git2::Repository, files: &[String], repo_path: &str) -> (r: AppResult<()>)
    ensures
        r matches Err(e) ==> e.is_store_failure(),
{
    let mut staged = match index(repo) {
        Ok(staged) => staged,
        Err(e) => {
            return Err(AppError::git_error(e));
        },
    };
    let base = path_from(repo_path);
    let mut i: usize = 0;
    while i < files.len()
        invariant
            i <= files.len(),
        decreases files.len() - i,
    {
        let file = files[i].as_str();
        let full_path = path_join(&base, file);
        let outcome = match plan_stage(path_exists(&full_path)) {
            StagePlan::Add => index_add_path(&mut staged, file),
            StagePlan::Remove => index_remove_path(&mut staged, file),
        };
        match outcome {
            Ok(()) => {},
            Err(e) => {
                return Err(AppError::git_error(e));
            },
        }
        i = i + 1;
    }
    match index_write(&mut staged) {
        Ok(()) => Ok(()),
        Err(e) => Err(AppError::git_error(e)),
    }
}

/// The index entry that restores `path` to a blob of `size` bytes with
/// file mode `mode`: size and mode are cut to 32 bits, everything else is
/// zero.
pub fn restored_entry(path: &str, mode: i32, size: usize) -> (fields: EntryFields)
    ensures
        fields.path@ == path@,
        fields.mode == mode as u32,
        fields.file_size == size as u32,
        fields.ctime_seconds == 0 && fields.ctime_nanoseconds == 0,
        fields.mtime_seconds == 0 && fields.mtime_nanoseconds == 0,
        fields.dev == 0 && fields.ino == 0 && fields.uid == 0 && fields.gid == 0,
        fields.flags == 0 && fields.flags_extended == 0,
{
    EntryFields {
        ctime_seconds: 0,
        ctime_nanoseconds: 0,
        mtime_seconds: 0,
        mtime_nanoseconds: 0,
        dev: 0,
        ino: 0,
        mode: #[verifier::truncate] (mode as u32),
        uid: 0,
        gid: 0,
        file_size: #[verifier::truncate] (size as u32),
        flags: 0,
        flags_extended: 0,
        path: path.to_owned(),
    }
}

/// What taking a path out of the staged changes comes to.
#[derive(Debug, Clone, Copy, PartialEq, Eq, Structural)]
pub enum UnstagePlan {
    /// The index entry goes back to what the tree of `HEAD` holds.
    Restore,
    /// The index entry goes away.
    Remove,
}

/// The entry is restored exactly when there is a `HEAD` and its tree has
/// the path; otherwise it is removed.
pub open spec fn unstage_plan(has_head: bool, in_tree: bool) -> UnstagePlan {
    if has_head && in_tree {
        UnstagePlan::Restore
    } else {
        UnstagePlan::Remove
    }
}

/// What taking a path out of the staged changes comes to.
pub fn plan_unstage(has_head: bool, in_tree: bool) -> (plan: UnstagePlan)
    ensures
        plan == unstage_plan(has_head, in_tree),
{
    if has_head && in_tree {
        UnstagePlan::Restore
    } else {
        UnstagePlan::Remove
    }
}

/// The content to restore an index entry from: that of the blob the tree
/// entry names, and a refusal with `Not a blob` when the entry names
/// something else.
pub fn blob_or_refuse(content: Option<Vec<u8>>) -> (r: AppResult<Vec<u8>>)
    ensures
        match content {
            Some(bytes) => r == Ok::<Vec<u8>, AppError>(bytes),
            None => r matches Err(e) && e.plain("INTERNAL_ERROR"@, "Not a blob"@),
        },
{
    match content {
        Some(bytes) => Ok(bytes),
        None => Err(AppError::internal("Not a blob")),
    }
}

/// Takes one path out of the staged changes, by `unstage_plan`: the index
/// entry goes back to what the tree of `HEAD` holds, or goes away when
/// that tree has no such path or there is no `HEAD`.
fn unstage_file(
    repo: &git2::Repository,
    staged: &mut git2::Index,
    head_tree: &Option<git2::Tree<'_>>,
    file: &str,
) -> (r: AppResult<()>)
    ensures
        r matches Err(e) ==> e.is_store_failure() || e.plain("INTERNAL_ERROR"@, "Not a blob"@),
{
    let found = match head_tree {
        Some(tree) => match tree_entry(tree, file) {
            Ok(entry) => Some(entry),
            Err(_) => None,
        },
        None => None,
    };
    let outcome = match plan_unstage(head_tree.is_some(), found.is_some()) {
        UnstagePlan::Restore => {
            let entry = match found {
                Some(entry) => entry,
                None => vstd::pervasive::unreached(),
            };
            let read = match tree_entry_blob(&entry, repo) {
                Ok(read) => read,
                Err(e) => {
                    return Err(AppError::git_error(e));
                },
            };
            let content = match blob_or_refuse(read) {
                Ok(content) => content,
                Err(e) => {
                    return Err(e);
                },
            };
            let fields = restored_entry(file, tree_entry_filemode(&entry), content.len());
            let restored = index_entry(&fields, tree_entry_id(&entry));
            index_add_frombuffer(staged, &restored, &content)
        },
        UnstagePlan::Remove => index_remove_path(staged, file),
    };
    match outcome {
        Ok(()) => Ok(()),
        Err(e) => Err(AppError::git_error(e)),
    }
}

/// Takes the given paths out of the staged changes.
pub fn unstage_files(repo: &git2::Repository, files: &[String]) -> (r: AppResult<()>)
    ensures
        r matches Err(e) ==> e.is_store_failure() || e.plain("INTERNAL_ERROR"@, "Not a blob"@),
{
    let head_tree = match head(repo) {
        Ok(reference) => match peel_to_tree(&reference) {
            Ok(tree) => Some(tree),
            Err(_) => None,
        },
        Err(_) => None,
    };
    let mut staged = match index(repo) {
        Ok(staged) => staged,
        Err(e) => {
            return Err(AppError::git_error(e));
        },
    };
    let mut i: usize = 0;
    while i < files.len()
        invariant
            i <= files.len(),
        decreases files.len() - i,
    {
        match unstage_file(repo, &mut staged, &head_tree, files[i].as_str()) {
            Ok(()) => {},
            Err(e) => {
                return Err(e);
            },
        }
        i = i + 1;
    }
    match index_write(&mut staged) {
        Ok(()) => Ok(()),
        Err(e) => Err(AppError::git_error(e)),
    }
}

/// Stages every change of the working tree.
pub fn stage_all(repo: &git2::Repository) -> (r: AppResult<()>)
    ensures
        r matches Err(e) ==> e.is_store_failure(),
{
    let mut staged = match index(repo) {
        Ok(staged) => staged,
        Err(e) => {
            return Err(AppError::git_error(e));
        },
    };
    match index_add_all(&mut staged, "*") {
        Ok(()) => {},
        Err(e) => {
            return Err(AppError::git_error(e));
        },
    }
    match index_write(&mut staged) {
        Ok(()) => Ok(()),
        Err(e) => Err(AppError::git_error(e)),
    }
}

/// Takes everything out of the staged changes: the index goes back to
/// what `HEAD` holds, by a mixed reset onto its commit; the working tree
/// stays as it is.
pub fn unstage_all(repo: &git2::Repository) -> (r: AppResult<()>)
    ensures
        r matches Err(e) ==> e.is_store_failure(),
{
    let reference = match head(repo) {
        Ok(reference) => reference,
        Err(e) => {
            return Err(AppError::git_error(e));
        },
    };
    let tip = match peel_to_commit(&reference) {
        Ok(tip) => tip,
        Err(e) => {
            return Err(AppError::git_error(e));
        },
    };
    match reset(repo, commit_as_object(&tip), ResetMode::Mixed) {
        Ok(()) => Ok(()),
        Err(e) => Err(AppError::git_error(e)),
    }
}

/// The texts of the given paths, in their order.
pub open spec fn path_texts(files: Seq<String>) -> Seq<Seq<char>> {
    Seq::new(files.len(), |i: int| files[i]@)
}

/// Whether one of the given paths holds a NUL character.
pub open spec fn some_nul(files: Seq<String>) -> bool {
    exists|i: int| 0 <= i < files.len() && (#[trigger] files[i])@.contains('\0')
}

/// The options of the checkout that throws away the changes of the given
/// paths: local changes are overwritten, and the checkout is limited to
/// exactly these paths. A path that holds a NUL character names no file:
/// `INTERNAL_ERROR`.
pub fn discard_options(files: &[String]) -> (r: AppResult<git2::build::CheckoutBuilder<'static>>)
    ensures
        match r {
            Ok(options) => {
                &&& !some_nul(files@)
                &&& overwrites(options)
                &&& given_paths(options) == path_texts(files@)
            },
            Err(e) => some_nul(files@) && e.plain("INTERNAL_ERROR"@, "Path holds a NUL character"@),
        },
{
    let mut options = forced_checkout();
    let mut i: usize = 0;
    while i < files.len()
        invariant
            i <= files.len(),
            overwrites(options),
            given_paths(options) == path_texts(files@.take(i as int)),
            forall|k: int| 0 <= k < i ==> !(#[trigger] files@[k])@.contains('\0'),
        decreases files.len() - i,
    {
        if has_nul(files[i].as_str()) {
            return Err(AppError::internal("Path holds a NUL character"));
        }
        checkout_path(&mut options, files[i].as_str());
        assert(path_texts(files@.take(i + 1)) =~= path_texts(files@.take(i as int)).push(files@[i as int]@));
        i = i + 1;
    }
    assert(files@.take(files@.len() as int) =~= files@);
    Ok(options)
}

/// Throws away the changes that the working tree holds for the given
/// paths: they are checked out from `HEAD`, local changes overwritten. A
/// path that holds a NUL character names no file: the call fails with
/// `INTERNAL_ERROR` exactly when one of the paths does, and nothing is
/// checked out.
pub fn discard_changes(repo: &git2::Repository, files: &[String]) -> (r: AppResult<()>)
    ensures
        some_nul(files@) <==> (r matches Err(e) && e.plain(
            "INTERNAL_ERROR"@,
            "Path holds a NUL character"@,
        )),
        r matches Err(e) ==> e.is_store_failure() || e.plain(
            "INTERNAL_ERROR"@,
            "Path holds a NUL character"@,
        ),
{
    proof {
        reveal_strlit("INTERNAL_ERROR");
        reveal_strlit("GIT_ERROR");
        assert("INTERNAL_ERROR"@.len() != "GIT_ERROR"@.len());
    }
    let mut options = match discard_options(files) {
        Ok(options) => options,
        Err(e) => {
            return Err(e);
        },
    };
    match checkout_head(repo, Some(&mut options)) {
        Ok(()) => Ok(()),
        Err(e) => Err(AppError::git_error(e)),
    }
}

/// Records the index as a commit on the current tip, with the given
/// message, and forgets the operation in progress, once it is known
/// whether the index is `conflicted`. Fails with `MERGE_CONFLICT` exactly
/// when it is, before anything is written. The result is the short id of
/// the new commit.
pub fn record_applied(repo: &git2::Repository, message: &str, conflicted: bool) -> (r: AppResult<String>)
    ensures
        conflicted <==> (r matches Err(e) && e.plain("MERGE_CONFLICT"@, "Conflitos de merge detectados"@)),
        match r {
            Ok(id) => id@.len() == 7,
            Err(e) => e.is_store_failure() || e.plain("MERGE_CONFLICT"@, "Conflitos de merge detectados"@),
        },
{
    proof {
        reveal_strlit("MERGE_CONFLICT");
        reveal_strlit("GIT_ERROR");
        assert("MERGE_CONFLICT"@.len() != "GIT_ERROR"@.len());
    }
    match refuse_conflicts(conflicted) {
        Ok(()) => {},
        Err(e) => {
            return Err(e);
        },
    }
    let signature = match default_signature(repo) {
        Ok(signature) => signature,
        Err(e) => {
            return Err(AppError::git_error(e));
        },
    };
    let mut fresh = match index(repo) {
        Ok(fresh) => fresh,
        Err(e) => {
            return Err(AppError::git_error(e));
        },
    };
    let tree_id = match index_write_tree(&mut fresh) {
        Ok(id) => id,
        Err(e) => {
            return Err(AppError::git_error(e));
        },
    };
    let tree = match find_tree(repo, tree_id) {
        Ok(tree) => tree,
        Err(e) => {
            return Err(AppError::git_error(e));
        },
    };
    let reference = match head(repo) {
        Ok(reference) => reference,
        Err(e) => {
            return Err(AppError::git_error(e));
        },
    };
    let tip = match peel_to_commit(&reference) {
        Ok(tip) => tip,
        Err(e) => {
            return Err(AppError::git_error(e));
        },
    };
    let mut parents: Vec<git2::Commit<'_>> = Vec::new();
    parents.push(tip);
    let id = match store_create_commit(repo, Some("HEAD"), &signature, &signature, message, &tree, &parents) {
        Ok(id) => id,
        Err(e) => {
            return Err(AppError::git_error(e));
        },
    };
    match cleanup_state(repo) {
        Ok(()) => Ok(short_id(id)),
        Err(e) => Err(AppError::git_error(e)),
    }
}

/// Reads whether the index holds conflicts and goes on as
/// `record_applied` says.
fn conclude(repo: &git2::Repository, message: &str) -> (r: AppResult<String>)
    ensures
        match r {
            Ok(id) => id@.len() == 7,
            Err(e) => e.is_store_failure() || e.plain("MERGE_CONFLICT"@, "Conflitos de merge detectados"@),
        },
{
    let staged = match index(repo) {
        Ok(staged) => staged,
        Err(e) => {
            return Err(AppError::git_error(e));
        },
    };
    let conflicted = index_has_conflicts(&staged);
    record_applied(repo, message, conflicted)
}

/// Applies the change of the commit `commit_hash` on top of the current
/// tip and records it under the same message; returns the short id of the
/// new commit. Fails with `COMMIT_NOT_FOUND` exactly when the hash cannot
/// be read as an object id, and with `MERGE_CONFLICT` when the change does
/// not apply cleanly.
pub fn cherry_pick(repo: &git2::Repository, commit_hash: &str) -> (r: AppResult<String>)
    ensures
        !is_oid_text(commit_hash@) ==> r is Err,
        match r {
            Ok(id) => id@.len() == 7,
            Err(e) => if is_oid_text(commit_hash@) {
                e.is_store_failure() || e.plain("MERGE_CONFLICT"@, "Conflitos de merge detectados"@)
            } else {
                e.detailed("COMMIT_NOT_FOUND"@, "Commit não encontrado"@, commit_hash@)
            },
        },
{
    let id = match oid_from_hex(commit_hash) {
        Ok(id) => id,
        Err(_) => {
            return Err(AppError::commit_not_found(commit_hash));
        },
    };
    let commit = match find_commit(repo, id) {
        Ok(commit) => commit,
        Err(e) => {
            return Err(AppError::git_error(e));
        },
    };
    match cherrypick(repo, &commit) {
        Ok(()) => {},
        Err(e) => {
            return Err(AppError::git_error(e));
        },
    }
    let message = match commit_message(&commit) {
        Some(message) => message,
        None => String::new(),
    };
    conclude(repo, message.as_str())
}

/// The message of the commit that reverts the commit `hash` with summary
/// `summary`.
pub open spec fn revert_message_text(summary: Seq<char>, hash: Seq<char>) -> Seq<char> {
    "Revert \""@ + summary + "\"\n\nThis reverts commit "@ + hash + "."@
}

/// The message of the commit that reverts the commit `hash` with summary
/// `summary`.
pub fn revert_message(summary: &str, hash: &str) -> (out: String)
    ensures
        out@ == revert_message_text(summary@, hash@),
{
    let mut out = "Revert \"".to_owned();
    out.push_str(summary);
    out.push_str("\"\n\nThis reverts commit ");
    out.push_str(hash);
    out.push_str(".");
    out
}

/// Undoes the change of the commit `commit_hash` on top of the current tip
/// and records that; returns the short id of the new commit. Fails with
/// `COMMIT_NOT_FOUND` exactly when the hash cannot be read as an object
/// id, and with `MERGE_CONFLICT` when the change does not come off
/// cleanly.
pub fn revert_commit(repo: &git2::Repository, commit_hash: &str) -> (r: AppResult<String>)
    ensures
        !is_oid_text(commit_hash@) ==> r is Err,
        match r {
            Ok(id) => id@.len() == 7,
            Err(e) => if is_oid_text(commit_hash@) {
                e.is_store_failure() || e.plain("MERGE_CONFLICT"@, "Conflitos de merge detectados"@)
            } else {
                e.detailed("COMMIT_NOT_FOUND"@, "Commit não encontrado"@, commit_hash@)
            },
        },
{
    let id = match oid_from_hex(commit_hash) {
        Ok(id) => id,
        Err(_) => {
            return Err(AppError::commit_not_found(commit_hash));
        },
    };
    let commit = match find_commit(repo, id) {
        Ok(commit) => commit,
        Err(e) => {
            return Err(AppError::git_error(e));
        },
    };
    match revert(repo, &commit) {
        Ok(()) => {},
        Err(e) => {
            return Err(AppError::git_error(e));
        },
    }
    let summary = match commit_summary(&commit) {
        Some(summary) => summary,
        None => String::new(),
    };
    let message = revert_message(summary.as_str(), commit_hash);
    conclude(repo, message.as_str())
}

/// How far a reset named `mode` reaches: `soft` and `hard` mean what they
/// say, and every other name, `mixed` among them, means mixed.
pub open spec fn reset_mode_of(mode: Seq<char>) -> ResetMode {
    if mode == "soft"@ {
        ResetMode::Soft
    } else if mode == "hard"@ {
        ResetMode::Hard
    } else {
        ResetMode::Mixed
    }
}

/// How far a reset named `mode` reaches.
pub fn parse_reset_mode(mode: &str) -> (parsed: ResetMode)
    ensures
        parsed == reset_mode_of(mode@),
{
    if same_text(mode, "soft") {
        ResetMode::Soft
    } else if same_text(mode, "hard") {
        ResetMode::Hard
    } else {
        ResetMode::Mixed
    }
}

/// Moves the current branch to the commit `commit_hash`, reaching as far
/// as `mode` says. Fails with `COMMIT_NOT_FOUND` exactly when the hash
/// cannot be read as an object id.
pub fn reset_to_commit(repo: &git2::Repository, commit_hash: &str, mode: &str) -> (r: AppResult<()>)
    ensures
        !is_oid_text(commit_hash@) ==> r is Err,
        r matches Err(e) ==> if is_oid_text(commit_hash@) {
            e.is_store_failure()
        } else {
            e.detailed("COMMIT_NOT_FOUND"@, "Commit não encontrado"@, commit_hash@)
        },
{
    let id = match oid_from_hex(commit_hash) {
        Ok(id) => id,
        Err(_) => {
            return Err(AppError::commit_not_found(commit_hash));
        },
    };
    let commit = match find_commit(repo, id) {
        Ok(commit) => commit,
        Err(e) => {
            return Err(AppError::git_error(e));
        },
    };
    match reset(repo, commit_as_object(&commit), parse_reset_mode(mode)) {
        Ok(()) => Ok(()),
        Err(e) => Err(AppError::git_error(e)),
    }
}

} // verus!
