//! References and object ids.

use vstd::prelude::*;

verus! {

/// Whether `c` is a hexadecimal digit, in either case.
pub open spec fn is_hex_digit(c: char) -> bool {
    ('0' <= c && c <= '9') || ('a' <= c && c <= 'f') || ('A' <= c && c <= 'F')
}

/// Whether `s` can be read as an object id: one to forty hexadecimal digits.
pub open spec fn is_oid_text(s: Seq<char>) -> bool {
    &&& 0 < s.len() <= 40
    &&& forall|i: int| 0 <= i < s.len() ==> is_hex_digit(#[trigger] s[i])
}

/// `git2::Oid::from_str`: reads an object id from hexadecimal text. It
/// succeeds exactly on texts of one to forty hexadecimal digits.
#[verifier::external_body]
pub(crate) fn oid_from_hex(text: &str) -> (r: Result<git2::Oid, git2::Error>)
    ensures
        r is Ok <==> is_oid_text(text@),
{
    git2::Oid::from_str(text)
}

/// The `Display` rendering of a `git2::Oid`: its forty hexadecimal digits.
#[verifier::external_body]
pub(crate) fn oid_hex(id: git2::Oid) -> (text: String)
    ensures
        text@.len() == 40,
{
    id.to_string()
}

/// `git2::Repository::head`: the reference that `HEAD` resolves to.
#[verifier::external_body]
pub(crate) fn head<'r>(repo: &'r git2::Repository) -> (r: Result<git2::Reference<'r>, git2::Error>) {
    repo.head()
}

/// `git2::Reference::peel_to_tree`.
#[verifier::external_body]
pub(crate) fn peel_to_tree<'r>(reference: &git2::Reference<'r>) -> (r: Result<git2::Tree<'r>, git2::Error>) {
    reference.peel_to_tree()
}

/// `git2::Reference::peel_to_commit`.
#[verifier::external_body]
pub(crate) fn peel_to_commit<'r>(reference: &git2::Reference<'r>) -> (r: Result<
    git2::Commit<'r>,
    git2::Error,
>) {
    reference.peel_to_commit()
}

/// Which branches are meant: those of this repository, or the
/// remote-tracking ones.
#[derive(Debug, Clone, Copy, PartialEq, Eq, Structural)]
pub enum BranchScope {
    Local,
    Remote,
}

/// `git2::BranchType`, one variant for one.
#[verifier::external_body]
pub(crate) fn branch_type(scope: BranchScope) -> (t: git2::BranchType) {
    match scope {
        BranchScope::Local => git2::BranchType::Local,
        BranchScope::Remote => git2::BranchType::Remote,
    }
}

/// `git2::Reference::shorthand`: the short name, if it is valid UTF-8.
#[verifier::external_body]
pub(crate) fn reference_shorthand(reference: &git2::Reference<'_>) -> (name: Option<String>) {
    reference.shorthand().map(String::from)
}

/// `git2::Reference::name`: the full name, if it is valid UTF-8.
#[verifier::external_body]
pub(crate) fn reference_name(reference: &git2::Reference<'_>) -> (name: Option<String>) {
    reference.name().map(String::from)
}

/// `git2::Reference::target`: the id a direct reference points at.
#[verifier::external_body]
pub(crate) fn reference_target(reference: &git2::Reference<'_>) -> (id: Option<git2::Oid>) {
    reference.target()
}

/// `git2::Reference::is_branch`.
#[verifier::external_body]
pub(crate) fn reference_is_branch(reference: &git2::Reference<'_>) -> (b: bool) {
    reference.is_branch()
}

/// `git2::Repository::find_branch`.
#[verifier::external_body]
pub(crate) fn find_branch<'r>(repo: &'r git2::Repository, name: &str, scope: BranchScope) -> (r: Result<
    git2::Branch<'r>,
    git2::Error,
>) {
    repo.find_branch(name, branch_type(scope))
}

/// `git2::Repository::branches`: the branches of one scope, in the order
/// the store walks them; the first failure of the walk is the result.
#[verifier::external_body]
pub(crate) fn branches<'r>(repo: &'r git2::Repository, scope: BranchScope) -> (r: Result<
    Vec<git2::Branch<'r>>,
    git2::Error,
>) {
    repo.branches(Some(branch_type(scope)))?.map(|item| item.map(|(branch, _)| branch)).collect()
}

/// The name that a branch goes by: what follows `refs/heads/` or
/// `refs/remotes/` in the name of its reference, if that is valid UTF-8.
pub uninterp spec fn branch_label(branch: git2::Branch<'_>) -> Option<Seq<char>>;

/// `git2::Branch::name`: the branch name; `Ok(None)` when it is not valid
/// UTF-8. It fails for a reference that is neither a local nor a
/// remote-tracking branch.
#[verifier::external_body]
pub(crate) fn branch_name(branch: &git2::Branch<'_>) -> (r: Result<Option<String>, git2::Error>)
    ensures
        r matches Ok(name) ==> branch_label(*branch) == match name {
            Some(text) => Some(text@),
            None => None,
        },
{
    branch.name().map(|name| name.map(String::from))
}

/// `git2::Branch::get`: the reference behind the branch.
#[verifier::external_body]
pub(crate) fn branch_reference<'a, 'r>(branch: &'a git2::Branch<'r>) -> (reference: &'a git2::Reference<
    'r,
>) {
    branch.get()
}

/// `git2::Branch::upstream`: the remote-tracking branch configured for a
/// local branch.
#[verifier::external_body]
pub(crate) fn branch_upstream<'r>(branch: &git2::Branch<'r>) -> (r: Result<git2::Branch<'r>, git2::Error>) {
    branch.upstream()
}

/// `git2::Repository::graph_ahead_behind`: how many commits `local` has
/// that `upstream` lacks, and the other way round.
#[verifier::external_body]
pub(crate) fn graph_ahead_behind(repo: &git2::Repository, local: git2::Oid, upstream: git2::Oid) -> (r:
    Result<(usize, usize), git2::Error>) {
    repo.graph_ahead_behind(local, upstream)
}

/// `git2::Repository::merge_base`: a common ancestor of two commits.
#[verifier::external_body]
pub(crate) fn merge_base(repo: &git2::Repository, one: git2::Oid, two: git2::Oid) -> (r: Result<
    git2::Oid,
    git2::Error,
>) {
    repo.merge_base(one, two)
}

/// `git2::Repository::branch`: creates a local branch at `target`.
#[verifier::external_body]
pub(crate) fn create_branch<'r>(
    repo: &'r git2::Repository,
    name: &str,
    target: &git2::Commit<'_>,
    force: bool,
) -> (r: Result<git2::Branch<'r>, git2::Error>) {
    repo.branch(name, target, force)
}

/// `git2::Branch::delete`.
#[verifier::external_body]
pub(crate) fn delete_branch(branch: &mut git2::Branch<'_>) -> (r: Result<(), git2::Error>) {
    branch.delete()
}

/// `git2::Branch::rename`.
#[verifier::external_body]
pub(crate) fn rename_branch<'r>(branch: &mut git2::Branch<'r>, new_name: &str, force: bool) -> (r: Result<
    git2::Branch<'r>,
    git2::Error,
>) {
    branch.rename(new_name, force)
}

/// `git2::Branch::set_upstream`.
#[verifier::external_body]
pub(crate) fn set_branch_upstream(branch: &mut git2::Branch<'_>, upstream: Option<&str>) -> (r: Result<
    (),
    git2::Error,
>) {
    branch.set_upstream(upstream)
}

/// `git2::Repository::find_reference`.
#[verifier::external_body]
pub(crate) fn find_reference<'r>(repo: &'r git2::Repository, name: &str) -> (r: Result<
    git2::Reference<'r>,
    git2::Error,
>) {
    repo.find_reference(name)
}

/// `git2::Repository::set_head`: points `HEAD` at the named reference.
#[verifier::external_body]
pub(crate) fn set_head(repo: &git2::Repository, refname: &str) -> (r: Result<(), git2::Error>) {
    repo.set_head(refname)
}

/// `git2::Repository::refname_to_id`.
#[verifier::external_body]
pub(crate) fn refname_to_id(repo: &git2::Repository, name: &str) -> (r: Result<git2::Oid, git2::Error>) {
    repo.refname_to_id(name)
}

/// `git2::Repository::reference`: creates a direct reference, replacing an
/// existing one when `force` is set.
#[verifier::external_body]
pub(crate) fn set_reference<'r>(
    repo: &'r git2::Repository,
    name: &str,
    id: git2::Oid,
    force: bool,
    log_message: &str,
) -> (r: Result<git2::Reference<'r>, git2::Error>) {
    repo.reference(name, id, force, log_message)
}

} // verus!
