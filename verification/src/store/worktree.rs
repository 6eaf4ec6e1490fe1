//! The index and the working tree: status, staging, checkout, reset.

use vstd::prelude::*;

verus! {

/// What the object store reports for one path: the path, if it is valid
/// UTF-8, and the status flags that the engines read.
#[derive(Debug, Clone)]
pub struct StatusRecord {
    pub path: Option<String>,
    pub index_new: bool,
    pub index_modified: bool,
    pub index_deleted: bool,
    pub index_renamed: bool,
    pub wt_new: bool,
    pub wt_modified: bool,
    pub wt_deleted: bool,
    pub conflicted: bool,
}

/// One `git2::StatusEntry`, copied out flag by flag.
#[verifier::external_body]
pub(crate) fn status_record(entry: &git2::StatusEntry<'_>) -> (record: StatusRecord) {
    let status = entry.status();
    StatusRecord {
        path: entry.path().map(String::from),
        index_new: status.is_index_new(),
        index_modified: status.is_index_modified(),
        index_deleted: status.is_index_deleted(),
        index_renamed: status.is_index_renamed(),
        wt_new: status.is_wt_new(),
        wt_modified: status.is_wt_modified(),
        wt_deleted: status.is_wt_deleted(),
        conflicted: status.is_conflicted(),
    }
}

/// `git2::Repository::statuses` with the three options set as given; the
/// entries are copied out in the order the store lists them.
#[verifier::external_body]
pub(crate) fn status_records(
    repo: &git2::Repository,
    untracked: bool,
    ignored: bool,
    recurse_untracked: bool,
) -> (r: Result<Vec<StatusRecord>, git2::Error>) {
    let mut options = git2::StatusOptions::new();
    options.include_untracked(untracked).include_ignored(ignored).recurse_untracked_dirs(
        recurse_untracked,
    );
    let statuses = repo.statuses(Some(&mut options))?;
    Ok(statuses.iter().map(|entry| status_record(&entry)).collect())
}

/// `git2::Repository::index`.
#[verifier::external_body]
pub(crate) fn index(repo: &git2::Repository) -> (r: Result<git2::Index, git2::Error>) {
    repo.index()
}

/// What the repository is in the middle of, as the object store names it.
#[derive(Debug, Clone, Copy, PartialEq, Eq, Structural)]
pub enum RepoState {
    Clean,
    Merge,
    Revert,
    RevertSequence,
    CherryPick,
    CherryPickSequence,
    Bisect,
    Rebase,
    RebaseInteractive,
    RebaseMerge,
    ApplyMailbox,
    ApplyMailboxOrRebase,
}

/// `git2::Repository::state`, one variant for one.
#[verifier::external_body]
pub(crate) fn repo_state(repo: &git2::Repository) -> (state: RepoState) {
    match repo.state() {
        git2::RepositoryState::Clean => RepoState::Clean,
        git2::RepositoryState::Merge => RepoState::Merge,
        git2::RepositoryState::Revert => RepoState::Revert,
        git2::RepositoryState::RevertSequence => RepoState::RevertSequence,
        git2::RepositoryState::CherryPick => RepoState::CherryPick,
        git2::RepositoryState::CherryPickSequence => RepoState::CherryPickSequence,
        git2::RepositoryState::Bisect => RepoState::Bisect,
        git2::RepositoryState::Rebase => RepoState::Rebase,
        git2::RepositoryState::RebaseInteractive => RepoState::RebaseInteractive,
        git2::RepositoryState::RebaseMerge => RepoState::RebaseMerge,
        git2::RepositoryState::ApplyMailbox => RepoState::ApplyMailbox,
        git2::RepositoryState::ApplyMailboxOrRebase => RepoState::ApplyMailboxOrRebase,
    }
}

/// Whether a checkout with these options was told to overwrite local
/// changes.
pub uninterp spec fn overwrites(builder: git2::build::CheckoutBuilder<'_>) -> bool;

/// The paths that these options were given to limit a checkout to, in
/// the order they were given; none when the checkout is not limited.
pub uninterp spec fn given_paths(builder: git2::build::CheckoutBuilder<'_>) -> Seq<Seq<char>>;

/// `git2::build::CheckoutBuilder::new`: the default, safe checkout, not
/// limited to any path.
#[verifier::external_body]
pub(crate) fn checkout_builder() -> (builder: git2::build::CheckoutBuilder<'static>)
    ensures
        !overwrites(builder),
        given_paths(builder) == Seq::<Seq<char>>::empty(),
{
    git2::build::CheckoutBuilder::new()
}

/// `git2::build::CheckoutBuilder::force`: local changes are overwritten;
/// the paths stay as they are.
#[verifier::external_body]
pub(crate) fn checkout_force(builder: &mut git2::build::CheckoutBuilder<'_>)
    ensures
        overwrites(*final(builder)),
        given_paths(*final(builder)) == given_paths(*old(builder)),
{
    builder.force();
}

/// `git2::build::CheckoutBuilder::path`: limits the checkout to one more
/// path; the strategy stays as it is. The object library aborts on a path
/// that holds a NUL character.
#[verifier::external_body]
pub(crate) fn checkout_path(builder: &mut git2::build::CheckoutBuilder<'_>, path: &str)
    requires
        !path@.contains('\0'),
    ensures
        given_paths(*final(builder)) == given_paths(*old(builder)).push(path@),
        overwrites(*final(builder)) == overwrites(*old(builder)),
{
    builder.path(path);
}

/// `git2::Repository::checkout_tree`.
#[verifier::external_body]
pub(crate) fn checkout_tree(
    repo: &git2::Repository,
    treeish: &git2::Object<'_>,
    options: Option<&mut git2::build::CheckoutBuilder<'_>>,
) -> (r: Result<(), git2::Error>) {
    repo.checkout_tree(treeish, options)
}

/// `git2::Repository::checkout_head`.
#[verifier::external_body]
pub(crate) fn checkout_head(
    repo: &git2::Repository,
    options: Option<&mut git2::build::CheckoutBuilder<'_>>,
) -> (r: Result<(), git2::Error>) {
    repo.checkout_head(options)
}

/// `git2::Repository::merge_commits` with default options: the index that
/// merging the two commits gives, without touching the repository.
#[verifier::external_body]
pub(crate) fn merge_commits(
    repo: &git2::Repository,
    ours: &git2::Commit<'_>,
    theirs: &git2::Commit<'_>,
) -> (r: Result<git2::Index, git2::Error>) {
    repo.merge_commits(ours, theirs, None)
}

/// `git2::Index::has_conflicts`.
#[verifier::external_body]
pub(crate) fn index_has_conflicts(index: &git2::Index) -> (b: bool) {
    index.has_conflicts()
}

/// The sides of one conflicted path: the entry of the common ancestor, the
/// entry of the own side and the entry of the incoming side, each if the
/// path exists on that side.
pub struct ConflictSides {
    pub ancestor: Option<git2::IndexEntry>,
    pub our: Option<git2::IndexEntry>,
    pub their: Option<git2::IndexEntry>,
}

/// `git2::Index::conflicts`: every item the conflict walk yields, in
/// order, each conflict copied out field by field.
#[verifier::external_body]
pub(crate) fn index_conflicts(index: &git2::Index) -> (r: Result<
    Vec<Result<ConflictSides, git2::Error>>,
    git2::Error,
>) {
    let walk = index.conflicts()?;
    Ok(
        walk.map(
            |item| item.map(|c| (ConflictSides { ancestor: c.ancestor, our: c.our, their: c.their })),
        ).collect(),
    )
}

/// `git2::Index::add`: adds or replaces one entry.
#[verifier::external_body]
pub(crate) fn index_add(index: &mut git2::Index, entry: &git2::IndexEntry) -> (r: Result<(), git2::Error>) {
    index.add(entry)
}

/// `git2::Index::write`: writes the index back to disk.
#[verifier::external_body]
pub(crate) fn index_write(index: &mut git2::Index) -> (r: Result<(), git2::Error>) {
    index.write()
}

/// `git2::Index::write_tree_to`: writes the index as a tree into `repo`.
#[verifier::external_body]
pub(crate) fn index_write_tree_to(index: &mut git2::Index, repo: &git2::Repository) -> (r: Result<
    git2::Oid,
    git2::Error,
>) {
    index.write_tree_to(repo)
}

/// How far a reset reaches: the branch only, the index too, or the
/// working tree as well.
#[derive(Debug, Clone, Copy, PartialEq, Eq, Structural)]
pub enum ResetMode {
    Soft,
    Mixed,
    Hard,
}

/// `git2::ResetType`, one variant for one.
#[verifier::external_body]
pub(crate) fn reset_type(mode: ResetMode) -> (t: git2::ResetType) {
    match mode {
        ResetMode::Soft => git2::ResetType::Soft,
        ResetMode::Mixed => git2::ResetType::Mixed,
        ResetMode::Hard => git2::ResetType::Hard,
    }
}

/// `git2::Repository::reset` with default checkout options.
#[verifier::external_body]
pub(crate) fn reset(repo: &git2::Repository, target: &git2::Object<'_>, mode: ResetMode) -> (r: Result<
    (),
    git2::Error,
>) {
    repo.reset(target, reset_type(mode), None)
}

/// `git2::Repository::cleanup_state`: forgets a merge, revert or
/// cherry-pick in progress.
#[verifier::external_body]
pub(crate) fn cleanup_state(repo: &git2::Repository) -> (r: Result<(), git2::Error>) {
    repo.cleanup_state()
}

/// `git2::Repository::cherrypick` with default options.
#[verifier::external_body]
pub(crate) fn cherrypick(repo: &git2::Repository, commit: &git2::Commit<'_>) -> (r: Result<
    (),
    git2::Error,
>) {
    repo.cherrypick(commit, None)
}

/// `git2::Repository::revert` with default options.
#[verifier::external_body]
pub(crate) fn revert(repo: &git2::Repository, commit: &git2::Commit<'_>) -> (r: Result<(), git2::Error>) {
    repo.revert(commit, None)
}

/// `git2::Index::add_path`: stages the file at `path` from the working
/// tree.
#[verifier::external_body]
pub(crate) fn index_add_path(index: &mut git2::Index, path: &str) -> (r: Result<(), git2::Error>) {
    index.add_path(std::path::Path::new(path))
}

/// `git2::Index::remove_path`.
#[verifier::external_body]
pub(crate) fn index_remove_path(index: &mut git2::Index, path: &str) -> (r: Result<(), git2::Error>) {
    index.remove_path(std::path::Path::new(path))
}

/// `git2::Index::add_all` for one pattern, with default options and no
/// callback.
#[verifier::external_body]
pub(crate) fn index_add_all(index: &mut git2::Index, pattern: &str) -> (r: Result<(), git2::Error>) {
    index.add_all([pattern].iter(), git2::IndexAddOption::DEFAULT, None)
}

/// `git2::Index::write_tree`: writes the index as a tree.
#[verifier::external_body]
pub(crate) fn index_write_tree(index: &mut git2::Index) -> (r: Result<git2::Oid, git2::Error>) {
    index.write_tree()
}

/// The fields of an index entry.
#[derive(Debug, Clone)]
pub struct EntryFields {
    pub ctime_seconds: i32,
    pub ctime_nanoseconds: u32,
    pub mtime_seconds: i32,
    pub mtime_nanoseconds: u32,
    pub dev: u32,
    pub ino: u32,
    pub mode: u32,
    pub uid: u32,
    pub gid: u32,
    pub file_size: u32,
    pub flags: u16,
    pub flags_extended: u16,
    pub path: String,
}

/// A `git2::IndexEntry` with the given fields, for the object `id`.
#[verifier::external_body]
pub(crate) fn index_entry(fields: &EntryFields, id: git2::Oid) -> (entry: git2::IndexEntry) {
    git2::IndexEntry {
        ctime: git2::IndexTime::new(fields.ctime_seconds, fields.ctime_nanoseconds),
        mtime: git2::IndexTime::new(fields.mtime_seconds, fields.mtime_nanoseconds),
        dev: fields.dev,
        ino: fields.ino,
        mode: fields.mode,
        uid: fields.uid,
        gid: fields.gid,
        file_size: fields.file_size,
        id,
        flags: fields.flags,
        flags_extended: fields.flags_extended,
        path: fields.path.as_bytes().to_vec(),
    }
}

/// `git2::Index::add_frombuffer`: stages `data` under the given entry.
#[verifier::external_body]
pub(crate) fn index_add_frombuffer(index: &mut git2::Index, entry: &git2::IndexEntry, data: &Vec<u8>) -> (r:
    Result<(), git2::Error>) {
    index.add_frombuffer(entry, data)
}

} // verus!
