//! The stash engine: listing, creating, applying and dropping entries of
//! the stash stack.

use vstd::prelude::*;
use crate::error::AppError;
use crate::error::AppResult;
use crate::store::commits::commit_seconds;
use crate::store::commits::default_signature;
use crate::store::commits::find_commit;
use crate::store::refs::find_reference;
use crate::store::refs::oid_from_hex;
use crate::store::refs::oid_hex;
use crate::store::stashes::is_not_found;
use crate::store::stashes::log_entries;
use crate::store::stashes::LogRecord;
use crate::store::stashes::reflog;
use crate::store::stashes::reflog_entry;
use crate::store::stashes::reflog_len;
use crate::store::stashes::stash_apply;
use crate::store::stashes::stash_drop;
use crate::store::stashes::stash_pop;
use crate::store::stashes::stash_save;
use crate::store::stashes::StashRecord;
use crate::text::before_first;
use crate::text::chars_before;
use crate::text::chars_of;
use crate::text::head_chars;
use crate::text::slice_chars;
use crate::text::starts_with;
use crate::text::string_of;
use crate::text::take_chars;
use crate::text::trim_chars;
use crate::text::trimmed;

verus! {

/// One entry of the stash stack; position zero is the most recent.
#[derive(Debug, Clone)]
pub struct StashInfo {
    pub index: usize,
    pub message: String,
    pub commit_hash: String,
    pub branch: Option<String>,
    pub date: i64,
}

/// The branch that a stash message names. A message of the form
/// `On <branch>: ...` names the branch between `On ` and the first colon,
/// or everything after `On ` when no colon follows; any other message
/// names none.
pub open spec fn inferred_branch(message: Seq<char>) -> Option<Seq<char>> {
    if "On "@.is_prefix_of(message) {
        Some(before_first(message.skip("On "@.len() as int), ':'))
    } else {
        None
    }
}

/// The branch that a stash message names, if it names one.
pub fn infer_branch(message: &str) -> (branch: Option<String>)
    ensures
        match branch {
            Some(name) => inferred_branch(message@) == Some(name@),
            None => inferred_branch(message@) is None,
        },
{
    let chars = chars_of(message);
    let prefix = chars_of("On ");
    if starts_with(&chars, &prefix) {
        let rest = slice_chars(&chars, prefix.len(), chars.len());
        assert(rest@ =~= message@.skip("On "@.len() as int));
        let name = chars_before(&rest, ':');
        Some(string_of(&name))
    } else {
        None
    }
}

impl StashInfo {
    /// The entry shows `record`: same position and message, the first
    /// seven digits of the id, the branch that the message names, and the
    /// given time.
    pub open spec fn renders(self, record: StashRecord, date: i64) -> bool {
        &&& self.index == record.index
        &&& self.message@ == record.message@
        &&& self.commit_hash@ == head_chars(record.id@, 7)
        &&& match self.branch {
            Some(name) => inferred_branch(record.message@) == Some(name@),
            None => inferred_branch(record.message@) is None,
        }
        &&& self.date == date
    }

    /// The branch is the one the message names.
    pub open spec fn well_formed(self) -> bool {
        match self.branch {
            Some(name) => inferred_branch(self.message@) == Some(name@),
            None => inferred_branch(self.message@) is None,
        }
    }
}

/// The entry that shows `record`, made at time `date`.
pub fn stash_info(record: StashRecord, date: i64) -> (info: StashInfo)
    ensures
        info.renders(record, date),
        info.well_formed(),
{
    let branch = infer_branch(record.message.as_str());
    let commit_hash = take_chars(record.id.as_str(), 7);
    StashInfo { index: record.index, message: record.message, commit_hash, branch, date }
}

/// When the stash commit with id `id` was made; zero when the store cannot
/// tell.
fn stash_date(repo: &git2::Repository, id: &str) -> (date: i64) {
    match oid_from_hex(id) {
        Ok(id) => match find_commit(repo, id) {
            Ok(commit) => commit_seconds(&commit),
            Err(_) => 0,
        },
        Err(_) => 0,
    }
}

/// The stash entry at position `index`, from the entry of the log of the
/// stash reference at that position. An entry without a readable message
/// has the empty message.
pub fn stash_record(index: usize, entry: LogRecord) -> (record: StashRecord)
    ensures
        record.index == index,
        record.id@ == entry.id@,
        record.message@ == match entry.message {
            Some(message) => message@,
            None => Seq::<char>::empty(),
        },
{
    let message = match entry.message {
        Some(message) => message,
        None => String::new(),
    };
    StashRecord { index, message, id: entry.id }
}

/// The message of a stash entry whose log entry has the message
/// `message`: that message, or the empty one where there is none.
pub open spec fn stash_message(message: Option<Seq<char>>) -> Seq<char> {
    match message {
        Some(text) => text,
        None => Seq::empty(),
    }
}

/// The stash stack that the log of the stash reference stands for, newest
/// first: one entry for each entry of the log, at its position, with its
/// message and id.
pub fn stack_of(log: &git2::Reflog) -> (records: Vec<StashRecord>)
    ensures
        records@.len() == log_entries(*log).len(),
        forall|i: int|
            0 <= i < records@.len() ==> {
                &&& (#[trigger] records@[i]).index == i
                &&& records@[i].message@ == stash_message(log_entries(*log)[i].0)
                &&& records@[i].id@ == log_entries(*log)[i].1
                &&& records@[i].id@.len() == 40
            },
{
    let count = reflog_len(log);
    let mut records: Vec<StashRecord> = Vec::new();
    let mut at: usize = 0;
    while at < count
        invariant
            at <= count,
            count == log_entries(*log).len(),
            records@.len() == at,
            forall|i: int|
                0 <= i < records@.len() ==> {
                    &&& (#[trigger] records@[i]).index == i
                    &&& records@[i].message@ == stash_message(log_entries(*log)[i].0)
                    &&& records@[i].id@ == log_entries(*log)[i].1
                    &&& records@[i].id@.len() == 40
                },
        decreases count - at,
    {
        match reflog_entry(log, at) {
            Some(entry) => {
                records.push(stash_record(at, entry));
            },
            None => {
                return records;
            },
        }
        at = at + 1;
    }
    records
}

/// Reads the stash stack, newest first: what `stack_of` makes of the log
/// of the stash reference. A repository without that reference has an
/// empty stack.
fn stash_records(repo: &git2::Repository) -> (r: Result<Vec<StashRecord>, git2::Error>)
    ensures
        r matches Ok(records) ==> forall|i: int|
            0 <= i < records@.len() ==> (#[trigger] records@[i]).id@.len() == 40,
{
    match find_reference(repo, "refs/stash") {
        Ok(_) => {},
        Err(e) => {
            return if is_not_found(&e) {
                Ok(Vec::new())
            } else {
                Err(e)
            };
        },
    }
    match reflog(repo, "refs/stash") {
        Ok(log) => Ok(stack_of(&log)),
        Err(e) => Err(e),
    }
}

/// Whether `entry` shows `record` with some time.
pub open spec fn shows_record(entry: StashInfo, record: StashRecord) -> bool {
    exists|date: i64| #[trigger] entry.renders(record, date)
}

/// The entries of the given stash records, in their order: one for each
/// record, showing it with the time at which its commit was made, or
/// with zero where the store cannot tell.
pub fn stash_entries(repo: &git2::Repository, records: Vec<StashRecord>) -> (entries: Vec<StashInfo>)
    ensures
        entries@.len() == records@.len(),
        forall|i: int|
            0 <= i < entries@.len() ==> {
                &&& shows_record(#[trigger] entries@[i], records@[i])
                &&& entries@[i].well_formed()
            },
{
    let ghost all = records@;
    let mut rest = records;
    let mut entries: Vec<StashInfo> = Vec::new();
    assert(rest@ =~= all.skip(0));
    while rest.len() > 0
        invariant
            entries@.len() + rest@.len() == all.len(),
            rest@ == all.skip(entries@.len() as int),
            forall|i: int|
                0 <= i < entries@.len() ==> {
                    &&& shows_record(#[trigger] entries@[i], all[i])
                    &&& entries@[i].well_formed()
                },
        decreases rest.len(),
    {
        let ghost taken = entries@.len() as int;
        let ghost before = rest@;
        let record = rest.remove(0);
        assert(record == all[taken]);
        let date = stash_date(repo, record.id.as_str());
        let entry = stash_info(record, date);
        assert(entry.renders(all[taken], date));
        entries.push(entry);
        assert(rest@ =~= all.skip(entries@.len() as int));
    }
    entries
}

/// The entries of the stash stack, newest first as the store lists them.
/// The stack is read here; `stack_of` makes the records of the log and
/// `stash_entries` the entries of the records.
pub fn list_stashes(repo: &mut git2::Repository) -> (r: AppResult<Vec<StashInfo>>)
    ensures
        match r {
            Ok(entries) => forall|i: int|
                0 <= i < entries@.len() ==> {
                    &&& (#[trigger] entries@[i]).well_formed()
                    &&& entries@[i].commit_hash@.len() == 7
                },
            Err(e) => e.is_store_failure(),
        },
{
    let records = match stash_records(repo) {
        Ok(records) => records,
        Err(e) => {
            return Err(AppError::git_error(e));
        },
    };
    let entries = stash_entries(repo, records);
    proof {
        assert forall|i: int| 0 <= i < entries@.len() implies (#[trigger] entries@[i]).commit_hash@.len()
            == 7 by {
            assert(shows_record(entries@[i], records@[i]));
        }
    }
    Ok(entries)
}

/// Saves index and working tree as a new top entry and returns the short
/// id of its commit. Untracked files are taken along when
/// `include_untracked` is set; the index is left as it is when
/// `keep_index` is set.
pub fn create_stash(
    repo: &mut git2::Repository,
    message: Option<&str>,
    include_untracked: bool,
    keep_index: bool,
) -> (r: AppResult<String>)
    ensures
        match r {
            Ok(id) => id@.len() == 7,
            Err(e) => e.is_store_failure(),
        },
{
    let signature = match default_signature(repo) {
        Ok(signature) => signature,
        Err(e) => {
            return Err(AppError::git_error(e));
        },
    };
    match stash_save(repo, &signature, message, include_untracked, keep_index) {
        Ok(id) => Ok(take_chars(oid_hex(id).as_str(), 7)),
        Err(e) => Err(AppError::git_error(e)),
    }
}

/// Which way a stash is created.
#[derive(Debug, Clone, Copy, PartialEq, Eq, Structural)]
pub enum StashRoute {
    /// The whole working tree, through the object store.
    Native,
    /// Only the listed paths, through the `git` executable.
    External,
}

/// A stash is created through the `git` executable exactly when a list of
/// paths is given and is not empty.
pub open spec fn stash_route(files: Option<Vec<String>>) -> StashRoute {
    match files {
        Some(list) => if list@.len() > 0 {
            StashRoute::External
        } else {
            StashRoute::Native
        },
        None => StashRoute::Native,
    }
}

/// Which way a stash of `files` is created.
pub fn route_stash(files: &Option<Vec<String>>) -> (route: StashRoute)
    ensures
        route == stash_route(*files),
{
    match files {
        Some(list) => if list.len() > 0 {
            StashRoute::External
        } else {
            StashRoute::Native
        },
        None => StashRoute::Native,
    }
}

/// The texts of a list of strings.
pub open spec fn arguments(items: Seq<String>) -> Seq<Seq<char>> {
    Seq::new(items.len(), |i: int| items[i]@)
}

/// The arguments after `git` that stash the listed paths: `stash push`,
/// then `--include-untracked` if asked, then `-m` and the message if there
/// is one, then `--` and the paths.
pub open spec fn stash_push_arguments(message: Option<Seq<char>>, include_untracked: bool, files: Seq<
    Seq<char>,
>) -> Seq<Seq<char>> {
    seq!["stash"@, "push"@] + (if include_untracked {
        seq!["--include-untracked"@]
    } else {
        seq![]
    }) + (match message {
        Some(text) => seq!["-m"@, text],
        None => seq![],
    }) + seq!["--"@] + files
}

/// The arguments after `git` that stash the listed paths.
pub fn stash_push_args(message: Option<&str>, include_untracked: bool, files: &[String]) -> (args: Vec<
    String,
>)
    ensures
        arguments(args@) == stash_push_arguments(
            match message {
                Some(text) => Some(text@),
                None => None,
            },
            include_untracked,
            arguments(files@),
        ),
{
    let mut args: Vec<String> = Vec::new();
    args.push("stash".to_owned());
    args.push("push".to_owned());
    if include_untracked {
        args.push("--include-untracked".to_owned());
    }
    match message {
        Some(text) => {
            args.push("-m".to_owned());
            args.push(text.to_owned());
        },
        None => {},
    }
    args.push("--".to_owned());
    let ghost fixed = arguments(args@);
    assert(fixed =~= seq!["stash"@, "push"@] + (if include_untracked {
        seq!["--include-untracked"@]
    } else {
        seq![]
    }) + (match message {
        Some(text) => seq!["-m"@, text@],
        None => seq![],
    }) + seq!["--"@]);
    let mut i: usize = 0;
    while i < files.len()
        invariant
            i <= files.len(),
            arguments(args@) == fixed + arguments(files@.take(i as int)),
        decreases files.len() - i,
    {
        let ghost before = arguments(args@);
        args.push(files[i].clone());
        assert(arguments(args@) =~= before.push(files@[i as int]@));
        assert(arguments(files@.take(i + 1)) =~= arguments(files@.take(i as int)).push(
            files@[i as int]@,
        ));
        i = i + 1;
    }
    assert(files@.take(files.len() as int) =~= files@);
    args
}

/// The failure to start `git stash`, with what the system said about it.
pub fn stash_launch_failed(details: &str) -> (e: AppError)
    ensures
        e.detailed("STASH_ERROR"@, "Falha ao executar git stash"@, details@),
{
    AppError::with_details("STASH_ERROR", "Falha ao executar git stash", details)
}

/// What a run of `git stash push` comes to: on success its output without
/// the whitespace around it, otherwise `STASH_ERROR` with what it wrote to
/// its error stream, trimmed likewise.
pub fn stash_push_outcome(success: bool, stdout: &str, stderr: &str) -> (r: AppResult<String>)
    ensures
        match r {
            Ok(text) => success && text@ == trimmed(stdout@),
            Err(e) => !success && e.detailed("STASH_ERROR"@, "Falha ao criar stash"@, trimmed(stderr@)),
        },
{
    if success {
        let kept = trim_chars(&chars_of(stdout));
        Ok(string_of(&kept))
    } else {
        let kept = trim_chars(&chars_of(stderr));
        let details = string_of(&kept);
        Err(AppError::with_details("STASH_ERROR", "Falha ao criar stash", details.as_str()))
    }
}

/// How a stash entry is brought back.
#[derive(Debug, Clone, Copy, PartialEq, Eq, Structural)]
pub enum StashUse {
    /// The entry is applied and stays on the stack.
    Apply,
    /// The entry is applied and leaves the stack once that has succeeded.
    Pop,
}

/// An entry is popped exactly when it is to be dropped after it has been
/// applied.
pub open spec fn stash_use(drop_after: bool) -> StashUse {
    if drop_after {
        StashUse::Pop
    } else {
        StashUse::Apply
    }
}

/// How a stash entry is brought back.
pub fn plan_restore(drop_after: bool) -> (plan: StashUse)
    ensures
        plan == stash_use(drop_after),
{
    if drop_after {
        StashUse::Pop
    } else {
        StashUse::Apply
    }
}

/// Applies the entry at `index` to the working tree and the index. With
/// `drop_after` the entry is popped: it leaves the stack once it has been
/// applied, and stays when applying fails.
pub fn apply_stash(repo: &mut git2::Repository, index: usize, drop_after: bool) -> (r: AppResult<()>)
    ensures
        r matches Err(e) ==> e.is_store_failure(),
{
    let outcome = match plan_restore(drop_after) {
        StashUse::Pop => stash_pop(repo, index),
        StashUse::Apply => stash_apply(repo, index),
    };
    match outcome {
        Ok(()) => Ok(()),
        Err(e) => Err(AppError::git_error(e)),
    }
}

/// Removes the entry at `index`; the entries above it move down by one.
pub fn drop_stash(repo: &mut git2::Repository, index: usize) -> (r: AppResult<()>)
    ensures
        r matches Err(e) ==> e.is_store_failure(),
{
    match stash_drop(repo, index) {
        Ok(()) => Ok(()),
        Err(e) => Err(AppError::git_error(e)),
    }
}

/// Removes every entry. The entries are counted once, and then the top
/// entry is dropped that many times: positions are relative to the stack
/// as it stands, so only position zero is safe to drop repeatedly.
pub fn clear_stashes(repo: &mut git2::Repository) -> (r: AppResult<()>)
    ensures
        r matches Err(e) ==> e.is_store_failure(),
{
    let count = match stash_records(repo) {
        Ok(records) => records.len(),
        Err(e) => {
            return Err(AppError::git_error(e));
        },
    };
    let mut dropped: usize = 0;
    while dropped < count
        invariant
            dropped <= count,
        decreases count - dropped,
    {
        match stash_drop(repo, 0) {
            Ok(()) => {},
            Err(e) => {
                return Err(AppError::git_error(e));
            },
        }
        dropped = dropped + 1;
    }
    Ok(())
}

} // verus!
