//! Commits and trees.

use vstd::prelude::*;

verus! {

/// `git2::Repository::find_commit`.
#[verifier::external_body]
pub(crate) fn find_commit<'r>(repo: &'r git2::Repository, id: git2::Oid) -> (r: Result<
    git2::Commit<'r>,
    git2::Error,
>) {
    repo.find_commit(id)
}

/// `git2::Commit::tree`.
#[verifier::external_body]
pub(crate) fn commit_tree<'r>(commit: &git2::Commit<'r>) -> (r: Result<git2::Tree<'r>, git2::Error>) {
    commit.tree()
}

/// `git2::Commit::parent`: the parent at position `i`.
#[verifier::external_body]
pub(crate) fn commit_parent<'r>(commit: &git2::Commit<'r>, i: usize) -> (r: Result<
    git2::Commit<'r>,
    git2::Error,
>) {
    commit.parent(i)
}

/// Who signed a commit and when: name and email if they are valid UTF-8,
/// and the time in seconds since the epoch.
#[derive(Debug, Clone)]
pub struct PersonRecord {
    pub name: Option<String>,
    pub email: Option<String>,
    pub seconds: i64,
}

/// One `git2::Signature`, copied out.
#[verifier::external_body]
pub(crate) fn person_record(signature: &git2::Signature<'_>) -> (person: PersonRecord) {
    PersonRecord {
        name: signature.name().map(String::from),
        email: signature.email().map(String::from),
        seconds: signature.when().seconds(),
    }
}

/// `git2::Commit::id`.
#[verifier::external_body]
pub(crate) fn commit_id(commit: &git2::Commit<'_>) -> (id: git2::Oid) {
    commit.id()
}

/// `git2::Commit::message`: the full message, if it is valid UTF-8.
#[verifier::external_body]
pub(crate) fn commit_message(commit: &git2::Commit<'_>) -> (text: Option<String>) {
    commit.message().map(String::from)
}

/// `git2::Commit::summary`: the first paragraph of the message on one
/// line, if the store can produce it.
#[verifier::external_body]
pub(crate) fn commit_summary(commit: &git2::Commit<'_>) -> (text: Option<String>) {
    commit.summary().map(String::from)
}

/// `git2::Commit::time`, in seconds since the epoch.
#[verifier::external_body]
pub(crate) fn commit_seconds(commit: &git2::Commit<'_>) -> (seconds: i64) {
    commit.time().seconds()
}

/// `git2::Commit::author`, copied out.
#[verifier::external_body]
pub(crate) fn commit_author(commit: &git2::Commit<'_>) -> (person: PersonRecord) {
    person_record(&commit.author())
}

/// `git2::Commit::committer`, copied out.
#[verifier::external_body]
pub(crate) fn commit_committer(commit: &git2::Commit<'_>) -> (person: PersonRecord) {
    person_record(&commit.committer())
}

/// `git2::Repository::signature`: the identity configured for the
/// repository, stamped with the current time.
#[verifier::external_body]
pub(crate) fn default_signature(repo: &git2::Repository) -> (r: Result<
    git2::Signature<'static>,
    git2::Error,
>) {
    repo.signature()
}

/// `git2::Commit::amend`: writes a commit with the parents of `commit` and
/// the given signatures, message and tree, and moves `update_ref` from
/// `commit` to it when one is named.
#[verifier::external_body]
pub(crate) fn amend_commit<'r>(
    commit: &git2::Commit<'r>,
    update_ref: Option<&str>,
    author: &git2::Signature<'_>,
    committer: &git2::Signature<'_>,
    message: &str,
    tree: &git2::Tree<'r>,
) -> (r: Result<git2::Oid, git2::Error>) {
    commit.amend(update_ref, Some(author), Some(committer), None, Some(message), Some(tree))
}

/// `git2::Repository::find_tree`.
#[verifier::external_body]
pub(crate) fn find_tree<'r>(repo: &'r git2::Repository, id: git2::Oid) -> (r: Result<
    git2::Tree<'r>,
    git2::Error,
>) {
    repo.find_tree(id)
}

/// `git2::Repository::commit`: writes a commit with the given parents, in
/// order, and moves `update_ref` to it when one is named.
#[verifier::external_body]
pub(crate) fn create_commit(
    repo: &git2::Repository,
    update_ref: Option<&str>,
    author: &git2::Signature<'_>,
    committer: &git2::Signature<'_>,
    message: &str,
    tree: &git2::Tree<'_>,
    parents: &Vec<git2::Commit<'_>>,
) -> (r: Result<git2::Oid, git2::Error>) {
    let parents: Vec<&git2::Commit<'_>> = parents.iter().collect();
    repo.commit(update_ref, author, committer, message, tree, &parents)
}

/// `git2::Commit::parent_ids`: the ids of the parents, in order.
#[verifier::external_body]
pub(crate) fn commit_parent_ids(commit: &git2::Commit<'_>) -> (ids: Vec<git2::Oid>) {
    commit.parent_ids().collect()
}

/// `git2::Commit::parent_count`.
#[verifier::external_body]
pub(crate) fn commit_parent_count(commit: &git2::Commit<'_>) -> (n: usize) {
    commit.parent_count()
}

/// `git2::Commit::as_object`.
#[verifier::external_body]
pub(crate) fn commit_as_object<'a, 'r>(commit: &'a git2::Commit<'r>) -> (object: &'a git2::Object<'r>) {
    commit.as_object()
}

/// `git2::Repository::revwalk`: a fresh walk over the commit graph.
#[verifier::external_body]
pub(crate) fn revwalk<'r>(repo: &'r git2::Repository) -> (r: Result<git2::Revwalk<'r>, git2::Error>) {
    repo.revwalk()
}

/// `git2::Revwalk::set_sorting`, by commit time and topologically as
/// asked.
#[verifier::external_body]
pub(crate) fn revwalk_set_sorting(walk: &mut git2::Revwalk<'_>, time: bool, topological: bool) -> (r:
    Result<(), git2::Error>) {
    let mut mode = git2::Sort::NONE;
    mode.set(git2::Sort::TIME, time);
    mode.set(git2::Sort::TOPOLOGICAL, topological);
    walk.set_sorting(mode)
}

/// `git2::Revwalk::push`: starts the walk from one more commit.
#[verifier::external_body]
pub(crate) fn revwalk_push(walk: &mut git2::Revwalk<'_>, id: git2::Oid) -> (r: Result<(), git2::Error>) {
    walk.push(id)
}

/// `git2::Revwalk::push_head`: starts the walk from `HEAD`.
#[verifier::external_body]
pub(crate) fn revwalk_push_head(walk: &mut git2::Revwalk<'_>) -> (r: Result<(), git2::Error>) {
    walk.push_head()
}

/// The next item of a `git2::Revwalk`, or nothing when the walk is over.
#[verifier::external_body]
pub(crate) fn revwalk_next(walk: &mut git2::Revwalk<'_>) -> (item: Option<Result<git2::Oid, git2::Error>>) {
    walk.next()
}

/// `git2::Tree::get_path`: the entry at `path` below the tree.
#[verifier::external_body]
pub(crate) fn tree_entry(tree: &git2::Tree<'_>, path: &str) -> (r: Result<
    git2::TreeEntry<'static>,
    git2::Error,
>) {
    tree.get_path(std::path::Path::new(path))
}

/// `git2::TreeEntry::id`.
#[verifier::external_body]
pub(crate) fn tree_entry_id(entry: &git2::TreeEntry<'_>) -> (id: git2::Oid) {
    entry.id()
}

/// `git2::TreeEntry::filemode`.
#[verifier::external_body]
pub(crate) fn tree_entry_filemode(entry: &git2::TreeEntry<'_>) -> (mode: i32) {
    entry.filemode()
}

/// `git2::TreeEntry::to_object` and `git2::Object::as_blob`: the bytes of
/// the blob behind the entry; `Ok(None)` when the object is no blob.
#[verifier::external_body]
pub(crate) fn tree_entry_blob(entry: &git2::TreeEntry<'_>, repo: &git2::Repository) -> (r: Result<
    Option<Vec<u8>>,
    git2::Error,
>) {
    let object = entry.to_object(repo)?;
    Ok(object.as_blob().map(|blob| blob.content().to_vec()))
}

} // verus!
