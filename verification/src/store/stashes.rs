//! The stash stack of a repository.

use vstd::prelude::*;

verus! {

/// One entry of the stash stack: its position, its message and the id of
/// its commit.
#[derive(Debug, Clone)]
pub struct StashRecord {
    pub index: usize,
    pub message: String,
    pub id: String,
}

/// One entry of a reference log: its message, if it has one that is valid
/// UTF-8, and the id that the reference took.
#[derive(Debug, Clone)]
pub struct LogRecord {
    pub message: Option<String>,
    pub id: String,
}

/// `git2::Error::code` against `git2::ErrorCode::NotFound`: whether the
/// store failed because what was asked for does not exist.
#[verifier::external_body]
pub(crate) fn is_not_found(e: &git2::Error) -> (r: bool) {
    e.code() == git2::ErrorCode::NotFound
}

/// `git2::Repository::reflog`: the log of the named reference.
#[verifier::external_body]
pub(crate) fn reflog(repo: &git2::Repository, name: &str) -> (r: Result<git2::Reflog, git2::Error>) {
    repo.reflog(name)
}

/// What a log lists of one entry: its message, if it has one that is
/// valid UTF-8, and the forty hexadecimal digits of the id that the
/// reference took.
pub type LogKey = (Option<Seq<char>>, Seq<char>);

/// What `record` says of its entry.
pub open spec fn log_key(record: LogRecord) -> LogKey {
    (
        match record.message {
            Some(message) => Some(message@),
            None => None,
        },
        record.id@,
    )
}

/// The entries that a log holds, the most recent first.
pub uninterp spec fn log_entries(log: git2::Reflog) -> Seq<LogKey>;

/// `git2::Reflog::len`: the number of entries of the log.
#[verifier::external_body]
pub(crate) fn reflog_len(log: &git2::Reflog) -> (count: usize)
    ensures
        count == log_entries(*log).len(),
{
    log.len()
}

/// `git2::Reflog::get`, copied out by `git2::ReflogEntry::message` and
/// `git2::ReflogEntry::id_new`: the entry at position `i`, position zero
/// being the most recent, with the id rendered as its forty hexadecimal
/// digits. There is an entry at every position below the count and at no
/// other.
#[verifier::external_body]
pub(crate) fn reflog_entry(log: &git2::Reflog, i: usize) -> (r: Option<LogRecord>)
    ensures
        match r {
            Some(record) => {
                &&& i < log_entries(*log).len()
                &&& log_key(record) == log_entries(*log)[i as int]
                &&& record.id@.len() == 40
            },
            None => i >= log_entries(*log).len(),
        },
{
    let entry = log.get(i)?;
    Some(LogRecord { message: entry.message().map(|m| m.to_string()), id: entry.id_new().to_string() })
}

/// `git2::Repository::stash_save2`: saves index and working tree as a new
/// top entry, with untracked files and with the index kept as asked.
#[verifier::external_body]
pub(crate) fn stash_save(
    repo: &mut git2::Repository,
    stasher: &git2::Signature<'_>,
    message: Option<&str>,
    untracked: bool,
    keep_index: bool,
) -> (r: Result<git2::Oid, git2::Error>) {
    let mut flags = git2::StashFlags::DEFAULT;
    flags.set(git2::StashFlags::INCLUDE_UNTRACKED, untracked);
    flags.set(git2::StashFlags::KEEP_INDEX, keep_index);
    repo.stash_save2(stasher, message, Some(flags))
}

/// `git2::Repository::stash_apply` with default options.
#[verifier::external_body]
pub(crate) fn stash_apply(repo: &mut git2::Repository, index: usize) -> (r: Result<(), git2::Error>) {
    repo.stash_apply(index, Some(&mut git2::StashApplyOptions::new()))
}

/// `git2::Repository::stash_pop` with default options.
#[verifier::external_body]
pub(crate) fn stash_pop(repo: &mut git2::Repository, index: usize) -> (r: Result<(), git2::Error>) {
    repo.stash_pop(index, Some(&mut git2::StashApplyOptions::new()))
}

/// `git2::Repository::stash_drop`.
#[verifier::external_body]
pub(crate) fn stash_drop(repo: &mut git2::Repository, index: usize) -> (r: Result<(), git2::Error>) {
    repo.stash_drop(index)
}

} // verus!
