//! The branch and merge engine: listing, creating, checking out, deleting,
//! renaming and merging branches.

use vstd::prelude::*;
use crate::conflict::refuse_conflicts;
use crate::error::AppError;
use crate::error::AppResult;
use crate::error::git_error_message;
use crate::store::commits::commit_as_object;
use crate::store::commits::commit_author;
use crate::store::commits::commit_id;
use crate::store::commits::commit_seconds;
use crate::store::commits::commit_summary;
use crate::store::commits::create_commit;
use crate::store::commits::default_signature;
use crate::store::commits::find_commit;
use crate::store::commits::find_tree;
use crate::store::commits::PersonRecord;
use crate::store::refs::branch_label;
use crate::store::refs::branch_name;
use crate::store::refs::branch_reference;
use crate::store::refs::branch_upstream;
use crate::store::refs::branches;
use crate::store::refs::BranchScope;
use crate::store::refs::create_branch as store_create_branch;
use crate::store::refs::delete_branch as store_delete_branch;
use crate::store::refs::find_branch;
use crate::store::refs::find_reference;
use crate::store::refs::graph_ahead_behind;
use crate::store::refs::head;
use crate::store::refs::merge_base;
use crate::store::refs::oid_hex;
use crate::store::refs::peel_to_commit;
use crate::store::refs::reference_is_branch;
use crate::store::refs::reference_name;
use crate::store::refs::reference_shorthand;
use crate::store::refs::reference_target;
use crate::store::refs::refname_to_id;
use crate::store::refs::rename_branch as store_rename_branch;
use crate::store::refs::set_head;
use crate::store::refs::set_reference;
use crate::store::worktree::checkout_builder;
use crate::store::worktree::checkout_force;
use crate::store::worktree::checkout_head;
use crate::store::worktree::checkout_tree;
use crate::store::worktree::ConflictSides;
use crate::store::worktree::given_paths;
use crate::store::worktree::index;
use crate::store::worktree::index_add;
use crate::store::worktree::index_conflicts;
use crate::store::worktree::index_has_conflicts;
use crate::store::worktree::index_write;
use crate::store::worktree::index_write_tree_to;
use crate::store::worktree::merge_commits;
use crate::store::worktree::overwrites;
use crate::text::chars_of;
use crate::text::ends_with;
use crate::text::head_chars;
use crate::text::lemma_text_le_total;
use crate::text::lemma_text_le_transitive;
use crate::text::same_text;
use crate::text::slice_chars;
use crate::text::string_of;
use crate::text::take_chars;
use crate::text::text_before_or_equal;
use crate::text::text_le;

verus! {

/// One branch as it is listed: its name and kind, the tip it points at,
/// and its distance from the upstream when it has one.
#[derive(Debug, Clone)]
pub struct BranchInfo {
    pub name: String,
    pub is_current: bool,
    pub is_remote: bool,
    pub is_head: bool,
    pub commit_hash: Option<String>,
    pub commit_message: Option<String>,
    pub upstream: Option<String>,
    pub ahead: Option<usize>,
    pub behind: Option<usize>,
    pub author_name: Option<String>,
    pub author_email: Option<String>,
    pub commit_date: Option<i64>,
}

/// The order in which branches are listed: the current branch first, then
/// local branches before remote-tracking ones, then by name.
pub open spec fn branch_le(a: BranchInfo, b: BranchInfo) -> bool {
    if a.is_current != b.is_current {
        a.is_current
    } else if a.is_remote != b.is_remote {
        !a.is_remote
    } else {
        text_le(a.name@, b.name@)
    }
}

/// Every branch is listed before those that come after it in the order.
pub open spec fn listed_in_order(branches: Seq<BranchInfo>) -> bool {
    forall|i: int, j: int| 0 <= i < j < branches.len() ==> branch_le(branches[i], branches[j])
}

/// Of two branches, one is listed no later than the other.
pub proof fn lemma_branch_le_total(a: BranchInfo, b: BranchInfo)
    ensures
        branch_le(a, b) || branch_le(b, a),
{
    lemma_text_le_total(a.name@, b.name@);
}

/// The listing order is transitive.
pub proof fn lemma_branch_le_transitive(a: BranchInfo, b: BranchInfo, c: BranchInfo)
    requires
        branch_le(a, b),
        branch_le(b, c),
    ensures
        branch_le(a, c),
{
    if a.is_current == b.is_current && b.is_current == c.is_current && a.is_remote == b.is_remote
        && b.is_remote == c.is_remote {
        lemma_text_le_transitive(a.name@, b.name@, c.name@);
    }
}

/// Whether `a` is listed no later than `b`.
pub fn branch_precedes(a: &BranchInfo, b: &BranchInfo) -> (r: bool)
    ensures
        r == branch_le(*a, *b),
{
    if a.is_current != b.is_current {
        a.is_current
    } else if a.is_remote != b.is_remote {
        !a.is_remote
    } else {
        text_before_or_equal(a.name.as_str(), b.name.as_str())
    }
}

/// Whether `out` lists the branches of `input` in listing order, keeping
/// the order in which branches came that the listing order does not tell
/// apart. `places` says for each position of `out` from which position of
/// `input` its branch came.
pub open spec fn arranges(input: Seq<BranchInfo>, out: Seq<BranchInfo>, places: Seq<int>) -> bool {
    &&& places.len() == out.len()
    &&& out.len() == input.len()
    &&& forall|k: int|
        0 <= k < out.len() ==> 0 <= #[trigger] places[k] < input.len() && out[k] == input[places[k]]
    &&& forall|k: int, l: int|
        #![trigger out[k], out[l]]
        0 <= k < l < out.len() ==> {
            &&& places[k] != places[l]
            &&& branch_le(out[k], out[l])
            &&& branch_le(out[l], out[k]) ==> places[k] < places[l]
        }
}

/// Whether `out` is the stable sort of `input` by the listing order.
pub open spec fn stably_sorted(input: Seq<BranchInfo>, out: Seq<BranchInfo>) -> bool {
    exists|places: Seq<int>| arranges(input, out, places)
}

/// The same branches in listing order. Branches that the order does not
/// tell apart keep the order they came in.
pub fn sort_branches(branches: Vec<BranchInfo>) -> (out: Vec<BranchInfo>)
    ensures
        listed_in_order(out@),
        stably_sorted(branches@, out@),
        out@.to_multiset() == branches@.to_multiset(),
{
    let ghost all = branches@;
    let mut rest = branches;
    let mut out: Vec<BranchInfo> = Vec::new();
    let ghost mut places: Seq<int> = Seq::empty();
    assert(out@.to_multiset().add(rest@.to_multiset()) =~= all.to_multiset()) by {
        out@.to_multiset_ensures();
        assert(out@.to_multiset().len() == 0);
    }
    assert(rest@ =~= all.skip(0));
    while rest.len() > 0
        invariant
            out@.to_multiset().add(rest@.to_multiset()) == all.to_multiset(),
            places.len() == out@.len(),
            out@.len() + rest@.len() == all.len(),
            rest@ == all.skip(out@.len() as int),
            forall|k: int|
                0 <= k < out@.len() ==> 0 <= #[trigger] places[k] < out@.len() && out@[k] == all[places[k]],
            forall|k: int, l: int|
                #![trigger out@[k], out@[l]]
                0 <= k < l < out@.len() ==> {
                    &&& places[k] != places[l]
                    &&& branch_le(out@[k], out@[l])
                    &&& branch_le(out@[l], out@[k]) ==> places[k] < places[l]
                },
        decreases rest.len(),
    {
        let ghost rest_before = rest@;
        let ghost out_before = out@;
        let ghost places_before = places;
        let ghost taken = out@.len() as int;
        let x = rest.remove(0);
        assert(x == all[taken]);
        assert(rest_before.to_multiset().contains(x)) by {
            rest_before.to_multiset_ensures();
            assert(rest_before.contains(x)) by {
                assert(rest_before[0] == x);
            }
        }
        let mut p: usize = 0;
        while p < out.len() && branch_precedes(&out[p], &x)
            invariant
                p <= out.len(),
                out@ == out_before,
                forall|k: int| 0 <= k < p ==> branch_le(out@[k], x),
            decreases out.len() - p,
        {
            p = p + 1;
        }
        proof {
            assert forall|k: int| p <= k < out_before.len() implies branch_le(x, out_before[k])
                && !branch_le(out_before[k], x) by {
                lemma_branch_le_total(out_before[p as int], x);
                if k > p {
                    lemma_branch_le_transitive(x, out_before[p as int], out_before[k]);
                    if branch_le(out_before[k], x) {
                        lemma_branch_le_transitive(out_before[p as int], out_before[k], x);
                    }
                }
            }
            places = places_before.insert(p as int, taken);
        }
        out.insert(p, x);
        proof {
            let after = out@;
            assert forall|k: int| 0 <= k < after.len() implies 0 <= #[trigger] places[k] < after.len()
                && after[k] == all[places[k]] by {
                if k < p {
                    assert(places[k] == places_before[k]);
                } else if k > p {
                    assert(places[k] == places_before[k - 1]);
                    assert(after[k] == out_before[k - 1]);
                }
            }
            assert forall|k: int, l: int|
                #![trigger after[k], after[l]]
                0 <= k < l < after.len() implies {
                &&& places[k] != places[l]
                &&& branch_le(after[k], after[l])
                &&& branch_le(after[l], after[k]) ==> places[k] < places[l]
            } by {
                let old_k = if k < p { k } else { k - 1 };
                let old_l = if l < p { l } else { l - 1 };
                if k != p {
                    assert(after[k] == out_before[old_k]);
                    assert(places[k] == places_before[old_k]);
                }
                if l != p {
                    assert(after[l] == out_before[old_l]);
                    assert(places[l] == places_before[old_l]);
                }
            }
            assert(rest@ =~= all.skip(out@.len() as int));
            vstd::seq_lib::to_multiset_insert(out_before, p as int, x);
            vstd::seq_lib::to_multiset_remove(rest_before, 0);
            assert(out@.to_multiset() =~= out_before.to_multiset().insert(x));
            assert(rest@.to_multiset() =~= rest_before.to_multiset().remove(x));
            assert(out@.to_multiset().add(rest@.to_multiset()) =~= out_before.to_multiset().add(
                rest_before.to_multiset(),
            ));
        }
    }
    assert(out@.to_multiset() =~= all.to_multiset()) by {
        rest@.to_multiset_ensures();
        assert(rest@.to_multiset().len() == 0);
    }
    assert(arranges(all, out@, places));
    out
}

/// What the object store holds about the tip of a branch: the id of its
/// target, if the reference is a direct one, and the commit behind it, if
/// there is one.
#[derive(Debug, Clone)]
pub struct TipRecord {
    pub target: Option<String>,
    pub commit: Option<TipCommit>,
}

/// The commit behind a tip: its summary, its author and its time.
#[derive(Debug, Clone)]
pub struct TipCommit {
    pub summary: Option<String>,
    pub author: PersonRecord,
    pub seconds: i64,
}

/// A text that may be missing, read as empty when it is.
pub open spec fn text_or_empty(text: Option<String>) -> Seq<char> {
    match text {
        Some(t) => t@,
        None => Seq::empty(),
    }
}

/// Whether an optional string holds the optional text.
pub open spec fn holds(found: Option<String>, text: Option<Seq<char>>) -> bool {
    match found {
        Some(s) => text == Some(s@),
        None => text is None,
    }
}

/// The first seven digits of the target, if there is a target.
pub open spec fn tip_hash(record: TipRecord) -> Option<Seq<char>> {
    match record.target {
        Some(id) => Some(head_chars(id@, 7)),
        None => None,
    }
}

/// The summary of the commit behind the tip, if there is a commit and it
/// has one.
pub open spec fn tip_message(record: TipRecord) -> Option<Seq<char>> {
    match record.commit {
        Some(commit) => match commit.summary {
            Some(text) => Some(text@),
            None => None,
        },
        None => None,
    }
}

/// The name of the author of the commit behind the tip; empty when the
/// author has none that can be read.
pub open spec fn tip_author_name(record: TipRecord) -> Option<Seq<char>> {
    match record.commit {
        Some(commit) => Some(text_or_empty(commit.author.name)),
        None => None,
    }
}

/// The email of the author of the commit behind the tip; empty when the
/// author has none that can be read.
pub open spec fn tip_author_email(record: TipRecord) -> Option<Seq<char>> {
    match record.commit {
        Some(commit) => Some(text_or_empty(commit.author.email)),
        None => None,
    }
}

/// The time of the commit behind the tip.
pub open spec fn tip_date(record: TipRecord) -> Option<i64> {
    match record.commit {
        Some(commit) => Some(commit.seconds),
        None => None,
    }
}

/// Whether the target of the tip, if it has one, is long enough to be
/// shortened to seven digits.
pub open spec fn has_full_target(record: TipRecord) -> bool {
    match record.target {
        Some(id) => id@.len() >= 7,
        None => true,
    }
}

/// Whether `name` names the `HEAD` of a remote.
pub open spec fn is_remote_head(name: Seq<char>) -> bool {
    "/HEAD"@.is_suffix_of(name)
}

impl BranchInfo {
    /// The entry shows the tip `record`: the short id of its target, and
    /// the summary, author and time of the commit behind it.
    pub open spec fn shows(self, record: TipRecord) -> bool {
        &&& holds(self.commit_hash, tip_hash(record))
        &&& holds(self.commit_message, tip_message(record))
        &&& holds(self.author_name, tip_author_name(record))
        &&& holds(self.author_email, tip_author_email(record))
        &&& self.commit_date == tip_date(record)
    }

    /// The entry is that of the local branch `name` with tip `tip`. It is
    /// current when `current` names it. Its distance from the upstream is
    /// shown only when it has an upstream.
    pub open spec fn is_local_entry(
        self,
        name: Option<String>,
        tip: TipRecord,
        is_head: bool,
        upstream: Option<String>,
        distance: Option<(usize, usize)>,
        current: Option<String>,
    ) -> bool {
        &&& self.name@ == text_or_empty(name)
        &&& self.is_current == (current matches Some(c) && c@ == text_or_empty(name))
        &&& !self.is_remote
        &&& self.is_head == is_head
        &&& self.shows(tip)
        &&& self.upstream == upstream
        &&& self.ahead == match (upstream, distance) {
            (Some(_), Some(d)) => Some(d.0),
            _ => None,
        }
        &&& self.behind == match (upstream, distance) {
            (Some(_), Some(d)) => Some(d.1),
            _ => None,
        }
    }

    /// The entry is that of the remote-tracking branch `name` with tip
    /// `tip`: never current, never a head, without upstream.
    pub open spec fn is_remote_entry(self, name: Option<String>, tip: TipRecord) -> bool {
        &&& self.name@ == text_or_empty(name)
        &&& !self.is_current
        &&& self.is_remote
        &&& !self.is_head
        &&& self.shows(tip)
        &&& self.upstream is None
        &&& self.ahead is None
        &&& self.behind is None
    }

    /// What holds of every listed branch: a short id has seven digits;
    /// author name, author email and date are present together, and a
    /// summary only with them; ahead and behind come together and only for
    /// a local branch with an upstream; a remote-tracking branch is never
    /// current, never a head, has no upstream and is not a remote's
    /// `HEAD`.
    pub open spec fn well_formed(self) -> bool {
        &&& self.commit_hash matches Some(id) ==> id@.len() == 7
        &&& self.author_name is Some <==> self.author_email is Some
        &&& self.author_name is Some <==> self.commit_date is Some
        &&& self.commit_message is Some ==> self.author_name is Some
        &&& self.ahead is Some <==> self.behind is Some
        &&& self.ahead is Some ==> self.upstream is Some
        &&& self.is_remote ==> {
            &&& !self.is_current
            &&& !self.is_head
            &&& self.upstream is None
            &&& self.ahead is None
            &&& !is_remote_head(self.name@)
        }
    }
}

fn owned_or_empty(text: Option<String>) -> (out: String)
    ensures
        out@ == text_or_empty(text),
{
    match text {
        Some(t) => t,
        None => String::new(),
    }
}

/// The entry of a local branch.
pub fn local_branch(
    name: Option<String>,
    tip: TipRecord,
    is_head: bool,
    upstream: Option<String>,
    distance: Option<(usize, usize)>,
    current: &Option<String>,
) -> (entry: BranchInfo)
    ensures
        entry.is_local_entry(name, tip, is_head, upstream, distance, *current),
        has_full_target(tip) ==> entry.well_formed(),
{
    let name = owned_or_empty(name);
    let is_current = match current {
        Some(current) => same_text(current.as_str(), name.as_str()),
        None => false,
    };
    let (ahead, behind) = match (&upstream, distance) {
        (Some(_), Some((ahead, behind))) => (Some(ahead), Some(behind)),
        _ => (None, None),
    };
    let commit_hash = match &tip.target {
        Some(id) => Some(take_chars(id.as_str(), 7)),
        None => None,
    };
    match tip.commit {
        Some(commit) => BranchInfo {
            name,
            is_current,
            is_remote: false,
            is_head,
            commit_hash,
            commit_message: commit.summary,
            upstream,
            ahead,
            behind,
            author_name: Some(owned_or_empty(commit.author.name)),
            author_email: Some(owned_or_empty(commit.author.email)),
            commit_date: Some(commit.seconds),
        },
        None => BranchInfo {
            name,
            is_current,
            is_remote: false,
            is_head,
            commit_hash,
            commit_message: None,
            upstream,
            ahead,
            behind,
            author_name: None,
            author_email: None,
            commit_date: None,
        },
    }
}

/// A local branch that is not the one checked out is listed where its tip
/// is: whatever other entries the listing sorts it among, the sorted
/// listing holds its entry, under its name, as a local branch, not as
/// current, and with the first seven digits of its target as short id.
pub proof fn law_other_branch_is_listed_at_its_tip(
    entries: Seq<BranchInfo>,
    listed: Seq<BranchInfo>,
    entry: BranchInfo,
    name: Option<String>,
    tip: TipRecord,
    is_head: bool,
    upstream: Option<String>,
    distance: Option<(usize, usize)>,
    current: Option<String>,
)
    requires
        entries.contains(entry),
        listed.to_multiset() == entries.to_multiset(),
        entry.is_local_entry(name, tip, is_head, upstream, distance, current),
        !(current matches Some(c) && c@ == text_or_empty(name)),
    ensures
        exists|j: int|
            0 <= j < listed.len() && {
                &&& (#[trigger] listed[j]).name@ == text_or_empty(name)
                &&& !listed[j].is_current
                &&& !listed[j].is_remote
                &&& holds(listed[j].commit_hash, tip_hash(tip))
            },
{
    entries.to_multiset_ensures();
    listed.to_multiset_ensures();
    assert(entries.to_multiset().count(entry) > 0);
    assert(listed.contains(entry));
    let j = choose|j: int| 0 <= j < listed.len() && listed[j] == entry;
    assert(listed[j].name@ == text_or_empty(name));
}

/// The entry of a remote-tracking branch; none for the `HEAD` of a remote.
pub fn remote_branch(name: Option<String>, tip: TipRecord) -> (entry: Option<BranchInfo>)
    ensures
        match entry {
            Some(found) => {
                &&& !is_remote_head(text_or_empty(name))
                &&& found.is_remote_entry(name, tip)
                &&& has_full_target(tip) ==> found.well_formed()
            },
            None => is_remote_head(text_or_empty(name)),
        },
{
    let name = owned_or_empty(name);
    if ends_with(&chars_of(name.as_str()), &chars_of("/HEAD")) {
        return None;
    }
    let commit_hash = match &tip.target {
        Some(id) => Some(take_chars(id.as_str(), 7)),
        None => None,
    };
    Some(
        match tip.commit {
            Some(commit) => BranchInfo {
                name,
                is_current: false,
                is_remote: true,
                is_head: false,
                commit_hash,
                commit_message: commit.summary,
                upstream: None,
                ahead: None,
                behind: None,
                author_name: Some(owned_or_empty(commit.author.name)),
                author_email: Some(owned_or_empty(commit.author.email)),
                commit_date: Some(commit.seconds),
            },
            None => BranchInfo {
                name,
                is_current: false,
                is_remote: true,
                is_head: false,
                commit_hash,
                commit_message: None,
                upstream: None,
                ahead: None,
                behind: None,
                author_name: None,
                author_email: None,
                commit_date: None,
            },
        },
    )
}

/// What the object store holds about the tip behind `reference`.
fn read_tip(reference: &git2::Reference<'_>) -> (tip: TipRecord)
    ensures
        tip.target matches Some(id) ==> id@.len() == 40,
{
    let target = match reference_target(reference) {
        Some(id) => Some(oid_hex(id)),
        None => None,
    };
    let commit = match peel_to_commit(reference) {
        Ok(commit) => Some(
            TipCommit {
                summary: commit_summary(&commit),
                author: commit_author(&commit),
                seconds: commit_seconds(&commit),
            },
        ),
        Err(_) => None,
    };
    TipRecord { target, commit }
}

/// How far the local branch `name` is ahead of and behind its upstream;
/// nothing when it has no upstream.
fn calculate_ahead_behind(repo: &git2::Repository, name: &str) -> (r: AppResult<Option<(usize, usize)>>)
    ensures
        r matches Err(e) ==> e.is_store_failure() || e.code@ == "INTERNAL_ERROR"@,
{
    let branch = match find_branch(repo, name, BranchScope::Local) {
        Ok(branch) => branch,
        Err(e) => {
            return Err(AppError::git_error(e));
        },
    };
    let upstream = match branch_upstream(&branch) {
        Ok(upstream) => upstream,
        Err(_) => {
            return Ok(None);
        },
    };
    let local_id = match reference_target(branch_reference(&branch)) {
        Some(id) => id,
        None => {
            return Err(AppError::internal("No local target"));
        },
    };
    let upstream_id = match reference_target(branch_reference(&upstream)) {
        Some(id) => id,
        None => {
            return Err(AppError::internal("No upstream target"));
        },
    };
    match graph_ahead_behind(repo, local_id, upstream_id) {
        Ok(distance) => Ok(Some(distance)),
        Err(e) => Err(AppError::git_error(e)),
    }
}

/// The name a branch is listed under: its name, or the empty name when
/// that is not valid UTF-8.
pub open spec fn shown_label(branch: git2::Branch<'_>) -> Seq<char> {
    match branch_label(branch) {
        Some(name) => name,
        None => Seq::empty(),
    }
}

/// The entry of one local branch: what `local_branch` makes of the name,
/// the tip, the upstream and the distance that the store reports for it,
/// marked as current when `current` names it.
fn local_entry(repo: &git2::Repository, branch: &git2::Branch<'_>, current: &Option<String>) -> (r:
    AppResult<BranchInfo>)
    ensures
        match r {
            Ok(entry) => {
                &&& entry.well_formed()
                &&& entry.name@ == shown_label(*branch)
                &&& !entry.is_remote
                &&& entry.is_current == (*current matches Some(c) && c@ == entry.name@)
                &&& exists|
                    name: Option<String>,
                    tip: TipRecord,
                    is_head: bool,
                    upstream: Option<String>,
                    distance: Option<(usize, usize)>,
                |
                    #[trigger] entry.is_local_entry(name, tip, is_head, upstream, distance, *current)
            },
            Err(e) => e.is_store_failure(),
        },
{
    let name = match branch_name(branch) {
        Ok(name) => name,
        Err(e) => {
            return Err(AppError::git_error(e));
        },
    };
    let reference = branch_reference(branch);
    let tip = read_tip(reference);
    let upstream = match branch_upstream(branch) {
        Ok(upstream) => match branch_name(&upstream) {
            Ok(name) => name,
            Err(_) => None,
        },
        Err(_) => None,
    };
    let distance = if upstream.is_some() {
        let looked_up = match &name {
            Some(text) => text.clone(),
            None => String::new(),
        };
        match calculate_ahead_behind(repo, looked_up.as_str()) {
            Ok(distance) => distance,
            Err(_) => None,
        }
    } else {
        None
    };
    Ok(local_branch(name, tip, reference_is_branch(reference), upstream, distance, current))
}

/// The entry of one remote-tracking branch, or nothing for a remote's
/// `HEAD`.
fn remote_entry(branch: &git2::Branch<'_>) -> (r: AppResult<Option<BranchInfo>>)
    ensures
        match r {
            Ok(Some(entry)) => {
                &&& entry.well_formed()
                &&& entry.is_remote
                &&& entry.name@ == shown_label(*branch)
                &&& !is_remote_head(shown_label(*branch))
            },
            Ok(None) => is_remote_head(shown_label(*branch)),
            Err(e) => e.is_store_failure(),
        },
{
    let name = match branch_name(branch) {
        Ok(name) => name,
        Err(e) => {
            return Err(AppError::git_error(e));
        },
    };
    let tip = read_tip(branch_reference(branch));
    Ok(remote_branch(name, tip))
}

/// Whether `current` names the branch `name`.
pub open spec fn names(current: Option<String>, name: Seq<char>) -> bool {
    current matches Some(c) && c@ == name
}

/// The names that `entries` are listed under, in their order.
pub open spec fn entry_names(entries: Seq<BranchInfo>) -> Seq<Seq<char>> {
    Seq::new(entries.len(), |i: int| entries[i].name@)
}

/// The names of `branches`, in their order.
pub open spec fn branch_names(branches: Seq<git2::Branch<'_>>) -> Seq<Seq<char>> {
    Seq::new(branches.len(), |i: int| shown_label(branches[i]))
}

/// The names of those of `branches` that are not the `HEAD` of a remote,
/// in their order.
pub open spec fn kept_names(branches: Seq<git2::Branch<'_>>) -> Seq<Seq<char>>
    decreases branches.len(),
{
    if branches.len() == 0 {
        Seq::empty()
    } else {
        let rest = kept_names(branches.drop_last());
        let name = shown_label(branches.last());
        if is_remote_head(name) {
            rest
        } else {
            rest.push(name)
        }
    }
}

/// The entries of the given branches, not yet sorted: one for each of
/// `locals`, in their order, then one for each of `remotes` that is not
/// the `HEAD` of a remote, in their order. No branch is left out and none
/// is entered twice. A local entry is current exactly when `current`
/// names it; a remote entry never is.
pub fn gather_branches(
    repo: &git2::Repository,
    locals: &Vec<git2::Branch<'_>>,
    remotes: &Vec<git2::Branch<'_>>,
    current: &Option<String>,
) -> (r: AppResult<Vec<BranchInfo>>)
    ensures
        match r {
            Ok(found) => {
                &&& entry_names(found@) == branch_names(locals@) + kept_names(remotes@)
                &&& forall|i: int| 0 <= i < found@.len() ==> (#[trigger] found@[i]).well_formed()
                &&& forall|i: int|
                    0 <= i < found@.len() ==> ((#[trigger] found@[i]).is_remote <==> i >= locals@.len())
                &&& forall|i: int|
                    0 <= i < found@.len() ==> (#[trigger] found@[i]).is_current == (i < locals@.len()
                        && names(*current, found@[i].name@))
            },
            Err(e) => e.is_store_failure(),
        },
{
    let mut found: Vec<BranchInfo> = Vec::new();
    let mut i: usize = 0;
    while i < locals.len()
        invariant
            i <= locals.len(),
            found@.len() == i,
            forall|k: int|
                0 <= k < found@.len() ==> {
                    &&& (#[trigger] found@[k]).well_formed()
                    &&& found@[k].name@ == shown_label(locals@[k])
                    &&& !found@[k].is_remote
                    &&& found@[k].is_current == (*current matches Some(c) && c@ == found@[k].name@)
                },
        decreases locals.len() - i,
    {
        match local_entry(repo, &locals[i], current) {
            Ok(entry) => {
                found.push(entry);
            },
            Err(e) => {
                return Err(e);
            },
        }
        i = i + 1;
    }
    assert(entry_names(found@) =~= branch_names(locals@) + kept_names(remotes@.take(0)));
    let mut j: usize = 0;
    while j < remotes.len()
        invariant
            j <= remotes.len(),
            found@.len() >= locals@.len(),
            entry_names(found@) == branch_names(locals@) + kept_names(remotes@.take(j as int)),
            forall|k: int| 0 <= k < found@.len() ==> (#[trigger] found@[k]).well_formed(),
            forall|k: int| 0 <= k < found@.len() ==> ((#[trigger] found@[k]).is_remote <==> k >= locals@.len()),
            forall|k: int|
                0 <= k < found@.len() ==> (#[trigger] found@[k]).is_current == (k < locals@.len()
                    && names(*current, found@[k].name@)),
        decreases remotes.len() - j,
    {
        let ghost before = found@;
        proof {
            assert(remotes@.take(j + 1).drop_last() =~= remotes@.take(j as int));
            assert(remotes@.take(j + 1).last() == remotes@[j as int]);
        }
        match remote_entry(&remotes[j]) {
            Ok(Some(entry)) => {
                found.push(entry);
                assert(entry_names(found@) =~= entry_names(before).push(entry.name@));
                assert(entry_names(found@) =~= branch_names(locals@) + kept_names(remotes@.take(j + 1)));
            },
            Ok(None) => {},
            Err(e) => {
                return Err(e);
            },
        }
        j = j + 1;
    }
    assert(remotes@.take(remotes@.len() as int) =~= remotes@);
    Ok(found)
}

/// All branches: the local ones, then the remote-tracking ones without the
/// remotes' `HEAD`, in listing order. Ahead and behind are computed only
/// for local branches with an upstream. The current branch and the
/// branches are read here; `gather_branches` makes the entries and
/// `sort_branches` puts them in order.
pub fn list_branches(repo: &git2::Repository) -> (r: AppResult<Vec<BranchInfo>>)
    ensures
        match r {
            Ok(listed) => {
                &&& listed_in_order(listed@)
                &&& forall|i: int| 0 <= i < listed@.len() ==> (#[trigger] listed@[i]).well_formed()
            },
            Err(e) => e.is_store_failure(),
        },
{
    let current = match head(repo) {
        Ok(reference) => reference_shorthand(&reference),
        Err(_) => None,
    };
    let locals = match branches(repo, BranchScope::Local) {
        Ok(locals) => locals,
        Err(e) => {
            return Err(AppError::git_error(e));
        },
    };
    let remotes = match branches(repo, BranchScope::Remote) {
        Ok(remotes) => remotes,
        Err(e) => {
            return Err(AppError::git_error(e));
        },
    };
    let found = match gather_branches(repo, &locals, &remotes, &current) {
        Ok(found) => found,
        Err(e) => {
            return Err(e);
        },
    };
    let ghost unsorted = found@;
    let listed = sort_branches(found);
    proof {
        assert forall|i: int| 0 <= i < listed@.len() implies (#[trigger] listed@[i]).well_formed() by {
            listed@.to_multiset_ensures();
            unsorted.to_multiset_ensures();
            assert(listed@.contains(listed@[i]));
            assert(listed@.to_multiset().count(listed@[i]) > 0);
            assert(unsorted.to_multiset().count(listed@[i]) > 0);
            assert(unsorted.contains(listed@[i]));
        }
    }
    Ok(listed)
}

/// The name under which the branch with short name `shorthand` goes: the
/// short name, or `HEAD` when there is none that is valid UTF-8.
pub open spec fn shorthand_text(shorthand: Option<String>) -> Seq<char> {
    match shorthand {
        Some(name) => name@,
        None => "HEAD"@,
    }
}

/// The name under which the branch with short name `shorthand` goes.
pub fn shorthand_or_head(shorthand: Option<String>) -> (name: String)
    ensures
        name@ == shorthand_text(shorthand),
{
    match shorthand {
        Some(name) => name,
        None => "HEAD".to_owned(),
    }
}

/// The short name of the branch that `HEAD` points at, or `HEAD` when that
/// name is not valid UTF-8.
pub fn get_current_branch(repo: &git2::Repository) -> (r: AppResult<String>)
    ensures
        r matches Err(e) ==> e.is_store_failure(),
{
    match head(repo) {
        Ok(reference) => Ok(shorthand_or_head(reference_shorthand(&reference))),
        Err(e) => Err(AppError::git_error(e)),
    }
}

/// Where the last segment of a slash-separated name starts: just after
/// its last slash, or at the front when it has none.
pub open spec fn segment_start(name: Seq<char>) -> int
    decreases name.len(),
{
    if name.len() == 0 {
        0
    } else if name.last() == '/' {
        name.len() as int
    } else {
        segment_start(name.drop_last())
    }
}

/// The last segment of a slash-separated name.
pub open spec fn last_segment_text(name: Seq<char>) -> Seq<char> {
    name.skip(segment_start(name))
}

/// The full name of the local branch `short`.
pub open spec fn local_ref_text(short: Seq<char>) -> Seq<char> {
    "refs/heads/"@ + short
}

/// The last segment of a slash-separated name: what follows its last
/// slash, or the whole name when it has none.
pub fn last_segment(name: &str) -> (out: String)
    ensures
        out@ == last_segment_text(name@),
{
    let v = chars_of(name);
    let mut start: usize = v.len();
    assert(v@.take(start as int) =~= v@);
    while start > 0 && v[start - 1] != '/'
        invariant
            start <= v.len(),
            segment_start(v@) == segment_start(v@.take(start as int)),
        decreases start,
    {
        assert(v@.take(start as int).drop_last() =~= v@.take(start - 1));
        start = start - 1;
    }
    let kept = slice_chars(&v, start, v.len());
    string_of(&kept)
}

/// The full name of the local branch `short`.
pub fn local_ref_name(short: &str) -> (out: String)
    ensures
        out@ == local_ref_text(short@),
{
    let mut out = "refs/heads/".to_owned();
    out.push_str(short);
    out
}

fn checkout_error(message: &str, e: git2::Error) -> (r: AppError)
    ensures
        r.reported("CHECKOUT_ERROR"@, message@),
{
    let text = git_error_message(&e);
    AppError::with_details("CHECKOUT_ERROR", message, text.as_str())
}

/// The options of every checkout that this library asks for on its own:
/// local changes are overwritten, and the checkout is not limited to any
/// path.
pub fn forced_checkout() -> (options: git2::build::CheckoutBuilder<'static>)
    ensures
        overwrites(options),
        given_paths(options) == Seq::<Seq<char>>::empty(),
{
    let mut options = checkout_builder();
    checkout_force(&mut options);
    options
}

/// Checks out the commit that the local branch `short` points at, local
/// changes overwritten, and points `HEAD` at the branch.
fn switch_to_local(repo: &git2::Repository, short: &str, lookup_failure: &str) -> (r: AppResult<()>)
    ensures
        r matches Err(e) ==> e.code@ == "CHECKOUT_ERROR"@,
{
    let local_ref = local_ref_name(short);
    let reference = match find_reference(repo, local_ref.as_str()) {
        Ok(reference) => reference,
        Err(e) => {
            return Err(checkout_error(lookup_failure, e));
        },
    };
    let commit = match peel_to_commit(&reference) {
        Ok(commit) => commit,
        Err(e) => {
            return Err(checkout_error("Erro ao obter commit", e));
        },
    };
    let mut options = forced_checkout();
    match checkout_tree(repo, commit_as_object(&commit), Some(&mut options)) {
        Ok(()) => {},
        Err(e) => {
            return Err(checkout_error("Erro ao fazer checkout", e));
        },
    }
    match set_head(repo, local_ref.as_str()) {
        Ok(()) => Ok(()),
        Err(e) => Err(checkout_error("Erro ao definir HEAD", e)),
    }
}

/// The route a checkout takes.
#[derive(Debug, Clone, Copy, PartialEq, Eq, Structural)]
pub enum CheckoutPlan {
    /// A local branch has the name: it is checked out.
    Local,
    /// A remote-tracking branch has the name, and a local branch named
    /// after its last segment exists: that local branch is checked out.
    ReuseLocal,
    /// A remote-tracking branch has the name, and no local branch is named
    /// after its last segment: one is made at the remote branch's commit
    /// and checked out.
    CreateLocal,
    /// Neither kind of branch has the name.
    NotFound,
}

/// The route of a checkout, given whether a local branch has the name,
/// whether a remote-tracking branch has it, and whether a local branch is
/// named after its last segment. Local branches come first.
pub open spec fn checkout_plan(local: bool, remote: bool, short_local: bool) -> CheckoutPlan {
    if local {
        CheckoutPlan::Local
    } else if remote {
        if short_local {
            CheckoutPlan::ReuseLocal
        } else {
            CheckoutPlan::CreateLocal
        }
    } else {
        CheckoutPlan::NotFound
    }
}

/// The route of a checkout.
pub fn plan_checkout(local: bool, remote: bool, short_local: bool) -> (plan: CheckoutPlan)
    ensures
        plan == checkout_plan(local, remote, short_local),
{
    if local {
        CheckoutPlan::Local
    } else if remote {
        if short_local {
            CheckoutPlan::ReuseLocal
        } else {
            CheckoutPlan::CreateLocal
        }
    } else {
        CheckoutPlan::NotFound
    }
}

/// The commit behind `branch`, to be checked out.
fn branch_commit<'r>(branch: &git2::Branch<'r>) -> (r: AppResult<git2::Commit<'r>>)
    ensures
        r matches Err(e) ==> e.reported("CHECKOUT_ERROR"@, "Erro ao obter commit da branch"@),
{
    match peel_to_commit(branch_reference(branch)) {
        Ok(commit) => Ok(commit),
        Err(e) => Err(checkout_error("Erro ao obter commit da branch", e)),
    }
}

/// Checks out the branch `name`, once the lookups are made: `local` is
/// the local branch of that name, `remote` the remote-tracking branch of
/// that name, and `short_local` tells whether a local branch is named
/// after the last segment of `name`. The route is that of
/// `checkout_plan`. The checkout is forced: local changes are
/// overwritten. Fails with `BRANCH_NOT_FOUND` exactly when neither branch
/// was found, and with `CHECKOUT_ERROR` for everything that goes wrong on
/// the other routes.
pub fn checkout_found(
    repo: &git2::Repository,
    name: &str,
    local: Option<git2::Branch<'_>>,
    remote: Option<git2::Branch<'_>>,
    short_local: bool,
) -> (r: AppResult<()>)
    ensures
        checkout_plan(local is Some, remote is Some, short_local) == CheckoutPlan::NotFound <==> (
        r matches Err(e) && e.detailed("BRANCH_NOT_FOUND"@, "Branch não encontrada"@, name@)),
        r matches Err(e) ==> e.detailed("BRANCH_NOT_FOUND"@, "Branch não encontrada"@, name@) || e.code@
            == "CHECKOUT_ERROR"@,
{
    proof {
        reveal_strlit("BRANCH_NOT_FOUND");
        reveal_strlit("CHECKOUT_ERROR");
        assert("BRANCH_NOT_FOUND"@.len() != "CHECKOUT_ERROR"@.len());
    }
    match plan_checkout(local.is_some(), remote.is_some(), short_local) {
        CheckoutPlan::Local => {
            let branch = match local {
                Some(branch) => branch,
                None => vstd::pervasive::unreached(),
            };
            let commit = match branch_commit(&branch) {
                Ok(commit) => commit,
                Err(e) => {
                    return Err(e);
                },
            };
            let mut options = forced_checkout();
            match checkout_tree(repo, commit_as_object(&commit), Some(&mut options)) {
                Ok(()) => {},
                Err(e) => {
                    return Err(checkout_error("Erro ao fazer checkout", e));
                },
            }
            let ref_name = local_ref_name(name);
            match set_head(repo, ref_name.as_str()) {
                Ok(()) => Ok(()),
                Err(e) => Err(checkout_error("Erro ao definir HEAD", e)),
            }
        },
        CheckoutPlan::ReuseLocal => {
            let branch = match remote {
                Some(branch) => branch,
                None => vstd::pervasive::unreached(),
            };
            let short = last_segment(name);
            match branch_commit(&branch) {
                Ok(_) => {},
                Err(e) => {
                    return Err(e);
                },
            }
            switch_to_local(repo, short.as_str(), "Erro ao encontrar referência local")
        },
        CheckoutPlan::CreateLocal => {
            let branch = match remote {
                Some(branch) => branch,
                None => vstd::pervasive::unreached(),
            };
            let short = last_segment(name);
            let commit = match branch_commit(&branch) {
                Ok(commit) => commit,
                Err(e) => {
                    return Err(e);
                },
            };
            match store_create_branch(repo, short.as_str(), &commit, false) {
                Ok(_) => {},
                Err(e) => {
                    return Err(checkout_error("Erro ao criar branch local", e));
                },
            }
            switch_to_local(repo, short.as_str(), "Erro ao encontrar referência")
        },
        CheckoutPlan::NotFound => Err(AppError::branch_not_found(name)),
    }
}

/// Checks out the branch `name`: a local branch of that name if there is
/// one, else the remote-tracking branch of that name, for which a local
/// branch named after its last segment is made unless it exists already.
/// The checkout is forced: local changes are overwritten. Fails with
/// `BRANCH_NOT_FOUND` when neither kind of branch has the name, and with
/// `CHECKOUT_ERROR` for everything that goes wrong after that. The lookups
/// are made here; what follows from them is `checkout_found`.
pub fn checkout_branch(repo: &git2::Repository, name: &str) -> (r: AppResult<()>)
    ensures
        r matches Err(e) ==> e.detailed("BRANCH_NOT_FOUND"@, "Branch não encontrada"@, name@) || e.code@
            == "CHECKOUT_ERROR"@,
{
    let local = match find_branch(repo, name, BranchScope::Local) {
        Ok(branch) => Some(branch),
        Err(_) => None,
    };
    let remote = if local.is_none() {
        match find_branch(repo, name, BranchScope::Remote) {
            Ok(branch) => Some(branch),
            Err(_) => None,
        }
    } else {
        None
    };
    let short_local = if remote.is_some() {
        let short = last_segment(name);
        find_branch(repo, short.as_str(), BranchScope::Local).is_ok()
    } else {
        false
    };
    checkout_found(repo, name, local, remote, short_local)
}

/// Creates the local branch `name` at the commit of `HEAD` and checks it
/// out when asked, once it is known whether a local branch of that name
/// `exists`. Fails with `BRANCH_EXISTS` exactly when one does, before
/// anything is asked of the store.
pub fn create_new_branch(repo: &git2::Repository, name: &str, checkout: bool, exists: bool) -> (r:
    AppResult<()>)
    ensures
        exists <==> (r matches Err(e) && e.detailed("BRANCH_EXISTS"@, "Branch já existe"@, name@)),
        r matches Err(e) ==> {
            ||| e.detailed("BRANCH_EXISTS"@, "Branch já existe"@, name@)
            ||| e.is_store_failure()
            ||| checkout && (e.detailed("BRANCH_NOT_FOUND"@, "Branch não encontrada"@, name@) || e.code@
                == "CHECKOUT_ERROR"@)
        },
{
    proof {
        reveal_strlit("BRANCH_EXISTS");
        reveal_strlit("BRANCH_NOT_FOUND");
        reveal_strlit("CHECKOUT_ERROR");
        reveal_strlit("GIT_ERROR");
        assert("BRANCH_EXISTS"@.len() != "BRANCH_NOT_FOUND"@.len());
        assert("BRANCH_EXISTS"@.len() != "CHECKOUT_ERROR"@.len());
        assert("BRANCH_EXISTS"@.len() != "GIT_ERROR"@.len());
    }
    if exists {
        return Err(AppError::branch_already_exists(name));
    }
    let reference = match head(repo) {
        Ok(reference) => reference,
        Err(e) => {
            return Err(AppError::git_error(e));
        },
    };
    let commit = match peel_to_commit(&reference) {
        Ok(commit) => commit,
        Err(e) => {
            return Err(AppError::git_error(e));
        },
    };
    match store_create_branch(repo, name, &commit, false) {
        Ok(_) => {},
        Err(e) => {
            return Err(AppError::git_error(e));
        },
    }
    if checkout {
        checkout_branch(repo, name)
    } else {
        Ok(())
    }
}

/// Creates the local branch `name` at the commit of `HEAD`, and checks it
/// out when asked. Fails with `BRANCH_EXISTS` when a local branch has that
/// name already. The lookup is made here; what follows from it is
/// `create_new_branch`.
pub fn create_branch(repo: &git2::Repository, name: &str, checkout: bool) -> (r: AppResult<()>)
    ensures
        r matches Err(e) ==> {
            ||| e.detailed("BRANCH_EXISTS"@, "Branch já existe"@, name@)
            ||| e.is_store_failure()
            ||| checkout && (e.detailed("BRANCH_NOT_FOUND"@, "Branch não encontrada"@, name@) || e.code@
                == "CHECKOUT_ERROR"@)
        },
{
    let exists = find_branch(repo, name, BranchScope::Local).is_ok();
    create_new_branch(repo, name, checkout, exists)
}

/// What deleting a branch comes to, once the current branch is known.
#[derive(Debug, Clone, Copy, PartialEq, Eq, Structural)]
pub enum DeletePlan {
    /// The branch is checked out: it stays.
    RefuseCurrent,
    /// The branch goes without further question.
    Delete,
    /// The branch goes only if its tip shares history with `HEAD`.
    DeleteIfMerged,
}

/// The plan for deleting `name` while `current` is checked out.
pub open spec fn delete_plan(current: Seq<char>, name: Seq<char>, force: bool) -> DeletePlan {
    if current == name {
        DeletePlan::RefuseCurrent
    } else if force {
        DeletePlan::Delete
    } else {
        DeletePlan::DeleteIfMerged
    }
}

/// The plan for deleting `name` while `current` is checked out.
pub fn plan_delete(current: &str, name: &str, force: bool) -> (plan: DeletePlan)
    ensures
        plan == delete_plan(current@, name@, force),
{
    if same_text(current, name) {
        DeletePlan::RefuseCurrent
    } else if force {
        DeletePlan::Delete
    } else {
        DeletePlan::DeleteIfMerged
    }
}

/// The answer to deleting a branch without force, once it is known
/// whether its tip `shares_history` with `HEAD`: the branch may go exactly
/// when it does, and stays with `BRANCH_NOT_MERGED` when it does not.
pub fn refuse_unmerged(shares_history: bool) -> (r: AppResult<()>)
    ensures
        shares_history <==> r is Ok,
        r matches Err(e) ==> e.detailed(
            "BRANCH_NOT_MERGED"@,
            "Branch não foi merged"@,
            "Use force delete para deletar mesmo assim"@,
        ),
{
    if shares_history {
        Ok(())
    } else {
        Err(
            AppError::with_details(
                "BRANCH_NOT_MERGED",
                "Branch não foi merged",
                "Use force delete para deletar mesmo assim",
            ),
        )
    }
}

/// Deletes the local branch `name`, once it is known that `current` is
/// checked out. The checked-out branch is never deleted: the call fails
/// with `CANNOT_DELETE_CURRENT` exactly when `name` is `current`, before
/// anything is asked of the store. Without `force` the branch must share
/// history with `HEAD`, that is, the two tips must have a merge base; if
/// they have none the branch stays: `BRANCH_NOT_MERGED`. With `force` that
/// failure does not occur.
pub fn delete_known(repo: &git2::Repository, current: &str, name: &str, force: bool) -> (r: AppResult<()>)
    ensures
        current@ == name@ <==> (r matches Err(e) && e.plain(
            "CANNOT_DELETE_CURRENT"@,
            "Não é possível deletar a branch atual"@,
        )),
        r matches Err(e) && e.code@ == "BRANCH_NOT_MERGED"@ ==> !force,
        r matches Err(e) ==> {
            ||| e.plain("CANNOT_DELETE_CURRENT"@, "Não é possível deletar a branch atual"@)
            ||| e.is_store_failure()
            ||| !force && e.detailed(
                "BRANCH_NOT_MERGED"@,
                "Branch não foi merged"@,
                "Use force delete para deletar mesmo assim"@,
            )
        },
{
    proof {
        reveal_strlit("CANNOT_DELETE_CURRENT");
        reveal_strlit("BRANCH_NOT_MERGED");
        reveal_strlit("GIT_ERROR");
        assert("CANNOT_DELETE_CURRENT"@.len() != "BRANCH_NOT_MERGED"@.len());
        assert("CANNOT_DELETE_CURRENT"@.len() != "GIT_ERROR"@.len());
        assert("BRANCH_NOT_MERGED"@.len() != "GIT_ERROR"@.len());
    }
    let plan = plan_delete(current, name, force);
    if plan == DeletePlan::RefuseCurrent {
        return Err(AppError::cannot_delete_current_branch());
    }
    let mut branch = match find_branch(repo, name, BranchScope::Local) {
        Ok(branch) => branch,
        Err(e) => {
            return Err(AppError::git_error(e));
        },
    };
    if plan == DeletePlan::DeleteIfMerged {
        let branch_commit = match peel_to_commit(branch_reference(&branch)) {
            Ok(commit) => commit,
            Err(e) => {
                return Err(AppError::git_error(e));
            },
        };
        let reference = match head(repo) {
            Ok(reference) => reference,
            Err(e) => {
                return Err(AppError::git_error(e));
            },
        };
        let head_commit = match peel_to_commit(&reference) {
            Ok(commit) => commit,
            Err(e) => {
                return Err(AppError::git_error(e));
            },
        };
        let shares_history = merge_base(repo, commit_id(&branch_commit), commit_id(&head_commit)).is_ok();
        match refuse_unmerged(shares_history) {
            Ok(()) => {},
            Err(e) => {
                return Err(e);
            },
        }
    }
    match store_delete_branch(&mut branch) {
        Ok(()) => Ok(()),
        Err(e) => Err(AppError::git_error(e)),
    }
}

/// Deletes the local branch `name`. The checked-out branch is never
/// deleted: `CANNOT_DELETE_CURRENT`. Without `force` the branch must share
/// history with `HEAD`, that is, the two tips must have a merge base; if
/// they have none the branch stays: `BRANCH_NOT_MERGED`. With `force` that
/// failure does not occur. The current branch is read here; what follows
/// from it is `delete_known`.
pub fn delete_branch(repo: &git2::Repository, name: &str, force: bool) -> (r: AppResult<()>)
    ensures
        r matches Err(e) ==> {
            ||| e.plain("CANNOT_DELETE_CURRENT"@, "Não é possível deletar a branch atual"@)
            ||| e.is_store_failure()
            ||| !force && e.detailed(
                "BRANCH_NOT_MERGED"@,
                "Branch não foi merged"@,
                "Use force delete para deletar mesmo assim"@,
            )
        },
{
    let current = match get_current_branch(repo) {
        Ok(current) => current,
        Err(e) => {
            return Err(e);
        },
    };
    delete_known(repo, current.as_str(), name, force)
}

/// Renames the local branch `old_name` to `new_name`; an existing branch
/// of the new name is not replaced.
pub fn rename_branch(repo: &git2::Repository, old_name: &str, new_name: &str) -> (r: AppResult<()>)
    ensures
        r matches Err(e) ==> e.is_store_failure(),
{
    let mut branch = match find_branch(repo, old_name, BranchScope::Local) {
        Ok(branch) => branch,
        Err(e) => {
            return Err(AppError::git_error(e));
        },
    };
    match store_rename_branch(&mut branch, new_name, false) {
        Ok(_) => Ok(()),
        Err(e) => Err(AppError::git_error(e)),
    }
}

/// How a merge proceeds.
#[derive(Debug, Clone, Copy, PartialEq, Eq, Structural)]
pub enum MergePlan {
    /// The current tip is an ancestor of the target: the branch moves to
    /// the target and no commit is made.
    FastForward,
    /// The histories have diverged: the trees are merged and a commit with
    /// two parents is made.
    ThreeWay,
}

/// A merge is a fast-forward exactly when the merge base of the two tips
/// is the current tip.
pub open spec fn merge_plan(head_id: Seq<char>, base_id: Seq<char>) -> MergePlan {
    if base_id == head_id {
        MergePlan::FastForward
    } else {
        MergePlan::ThreeWay
    }
}

/// The plan for merging into the tip `head_id` when the merge base with
/// the target is `base_id`.
pub fn plan_merge(head_id: &str, base_id: &str) -> (plan: MergePlan)
    ensures
        plan == merge_plan(head_id@, base_id@),
{
    if same_text(base_id, head_id) {
        MergePlan::FastForward
    } else {
        MergePlan::ThreeWay
    }
}

/// The message of the commit that merges branch `name`.
pub open spec fn merge_message_text(name: Seq<char>) -> Seq<char> {
    "Merge branch '"@ + name + "'"@
}

/// The reflog entry of a fast-forward to branch `name`.
pub open spec fn fast_forward_log_text(name: Seq<char>) -> Seq<char> {
    "merge "@ + name + ": Fast-forward"@
}

/// The message of the commit that merges branch `name`.
pub fn merge_message(name: &str) -> (out: String)
    ensures
        out@ == merge_message_text(name@),
{
    let mut out = "Merge branch '".to_owned();
    out.push_str(name);
    out.push_str("'");
    out
}

/// The reflog entry of a fast-forward to branch `name`.
pub fn fast_forward_log(name: &str) -> (out: String)
    ensures
        out@ == fast_forward_log_text(name@),
{
    let mut out = "merge ".to_owned();
    out.push_str(name);
    out.push_str(": Fast-forward");
    out
}

/// The incoming entries of a conflict walk, in the order of the walk: of
/// each conflicted path that was read and exists on the incoming side,
/// the entry of that side. Paths that could not be read, and paths that
/// the incoming side deleted, contribute nothing.
pub open spec fn incoming_of(conflicts: Seq<Result<ConflictSides, git2::Error>>) -> Seq<git2::IndexEntry>
    decreases conflicts.len(),
{
    if conflicts.len() == 0 {
        Seq::empty()
    } else {
        let rest = incoming_of(conflicts.drop_first());
        match conflicts[0] {
            Ok(sides) => match sides.their {
                Some(entry) => seq![entry] + rest,
                None => rest,
            },
            Err(_) => rest,
        }
    }
}

/// The incoming entries of a conflict walk: the only side that a refused
/// merge stages.
pub fn incoming_side(conflicts: Vec<Result<ConflictSides, git2::Error>>) -> (out: Vec<git2::IndexEntry>)
    ensures
        out@ == incoming_of(conflicts@),
{
    let ghost all = conflicts@;
    let mut rest = conflicts;
    let mut out: Vec<git2::IndexEntry> = Vec::new();
    while rest.len() > 0
        invariant
            out@ + incoming_of(rest@) == incoming_of(all),
        decreases rest.len(),
    {
        let ghost before = rest@;
        let ghost taken = out@;
        let item = rest.remove(0);
        proof {
            assert(rest@ =~= before.drop_first());
            assert(item == before[0]);
        }
        match item {
            Ok(sides) => match sides.their {
                Some(entry) => {
                    out.push(entry);
                    assert(out@ + incoming_of(rest@) =~= taken + (seq![entry] + incoming_of(rest@)));
                },
                None => {},
            },
            Err(_) => {},
        }
    }
    assert(out@ + incoming_of(rest@) =~= out@);
    out
}

/// Stages the incoming side of every conflicted path of `merged` in the
/// repository's own index and writes that index. What is staged is
/// `incoming_of` the conflict walk, entry by entry and in its order.
fn stage_incoming(repo: &git2::Repository, merged: &git2::Index) -> (r: AppResult<()>)
    ensures
        r matches Err(e) ==> e.is_store_failure(),
{
    let conflicts = match index_conflicts(merged) {
        Ok(conflicts) => conflicts,
        Err(e) => {
            return Err(AppError::git_error(e));
        },
    };
    let mut live = match index(repo) {
        Ok(live) => live,
        Err(e) => {
            return Err(AppError::git_error(e));
        },
    };
    let incoming = incoming_side(conflicts);
    let mut at: usize = 0;
    while at < incoming.len()
        invariant
            at <= incoming.len(),
        decreases incoming.len() - at,
    {
        match index_add(&mut live, &incoming[at]) {
            Ok(()) => {},
            Err(e) => {
                return Err(AppError::git_error(e));
            },
        }
        at = at + 1;
    }
    match index_write(&mut live) {
        Ok(()) => Ok(()),
        Err(e) => Err(AppError::git_error(e)),
    }
}

/// Completes a three-way merge of `branch_name`, once the trees of the two
/// tips are merged into `merged` and it is known whether that index is
/// `conflicted`. With conflicts the incoming side of every conflicted
/// path is staged and the call fails, with `MERGE_CONFLICT` unless the
/// store failed first; no commit is made. Without conflicts a commit with
/// the two tips as parents and the message `Merge branch '<name>'` is made
/// on `HEAD`, and the result is its seven-digit short id.
pub fn conclude_merge(
    repo: &git2::Repository,
    merged: &mut git2::Index,
    conflicted: bool,
    signature: &git2::Signature<'_>,
    head_commit: git2::Commit<'_>,
    branch_commit: git2::Commit<'_>,
    branch_name: &str,
) -> (r: AppResult<String>)
    ensures
        conflicted ==> r is Err,
        match r {
            Ok(outcome) => !conflicted && outcome@.len() == 7,
            Err(e) => e.is_store_failure() || (conflicted && e.plain(
                "MERGE_CONFLICT"@,
                "Conflitos de merge detectados"@,
            )),
        },
{
    match refuse_conflicts(conflicted) {
        Ok(()) => {},
        Err(refusal) => {
            return match stage_incoming(repo, merged) {
                Ok(()) => Err(refusal),
                Err(e) => Err(e),
            };
        },
    }
    let tree_id = match index_write_tree_to(merged, repo) {
        Ok(id) => id,
        Err(e) => {
            return Err(AppError::git_error(e));
        },
    };
    let tree = match find_tree(repo, tree_id) {
        Ok(tree) => tree,
        Err(e) => {
            return Err(AppError::git_error(e));
        },
    };
    let message = merge_message(branch_name);
    let mut parents: Vec<git2::Commit<'_>> = Vec::new();
    parents.push(head_commit);
    parents.push(branch_commit);
    match create_commit(repo, Some("HEAD"), signature, signature, message.as_str(), &tree, &parents) {
        Ok(id) => Ok(take_chars(oid_hex(id).as_str(), 7)),
        Err(e) => Err(AppError::git_error(e)),
    }
}

/// Merges the commit `branch_commit` of branch `branch_name` into the
/// current branch, whose reference is `reference` and whose tip is
/// `head_commit`, once the ids are known: `head_id` is the id of the tip
/// and `base_id` that of the merge base of the two commits. The route is
/// that of `merge_plan`. On the fast-forward route the current reference
/// moves to the target, the result is checked out with local changes
/// overwritten, no commit is made, and the result is `fast-forward`. On
/// the three-way route the trees are merged and `conclude_merge` does the
/// rest: the result is the short id of the merge commit.
pub fn merge_planned(
    repo: &git2::Repository,
    branch_name: &str,
    reference: &git2::Reference<'_>,
    head_commit: git2::Commit<'_>,
    branch_commit: git2::Commit<'_>,
    head_id: &str,
    base_id: &str,
) -> (r: AppResult<String>)
    ensures
        match merge_plan(head_id@, base_id@) {
            MergePlan::FastForward => match r {
                Ok(outcome) => outcome@ == "fast-forward"@,
                Err(e) => e.is_store_failure(),
            },
            MergePlan::ThreeWay => match r {
                Ok(outcome) => outcome@.len() == 7,
                Err(e) => e.is_store_failure() || e.plain(
                    "MERGE_CONFLICT"@,
                    "Conflitos de merge detectados"@,
                ),
            },
        },
{
    match plan_merge(head_id, base_id) {
        MergePlan::FastForward => {
            let log = fast_forward_log(branch_name);
            let head_name = match reference_name(reference) {
                Some(name) => name,
                None => "HEAD".to_owned(),
            };
            match set_reference(repo, head_name.as_str(), commit_id(&branch_commit), true, log.as_str()) {
                Ok(_) => {},
                Err(e) => {
                    return Err(AppError::git_error(e));
                },
            }
            let mut options = forced_checkout();
            match checkout_head(repo, Some(&mut options)) {
                Ok(()) => Ok("fast-forward".to_owned()),
                Err(e) => Err(AppError::git_error(e)),
            }
        },
        MergePlan::ThreeWay => {
            let signature = match default_signature(repo) {
                Ok(signature) => signature,
                Err(e) => {
                    return Err(AppError::git_error(e));
                },
            };
            let mut merged = match merge_commits(repo, &head_commit, &branch_commit) {
                Ok(merged) => merged,
                Err(e) => {
                    return Err(AppError::git_error(e));
                },
            };
            let conflicted = index_has_conflicts(&merged);
            conclude_merge(
                repo,
                &mut merged,
                conflicted,
                &signature,
                head_commit,
                branch_commit,
                branch_name,
            )
        },
    }
}

/// Merges the local branch `branch_name` into the current branch.
///
/// When the merge base of the two tips is the current tip, the current
/// reference moves to the target, the result is checked out with local
/// changes overwritten, no commit is made, and the result is
/// `fast-forward`. Otherwise the trees are merged: on conflicts the
/// incoming side of every conflicted path is staged and the call fails
/// with `MERGE_CONFLICT`; without conflicts a commit with the two tips as
/// parents and the message `Merge branch '<name>'` is made, and the result
/// is its seven-digit short id. The tips and their merge base are read
/// here; what follows from them is `merge_planned`.
pub fn merge_branch(repo: &git2::Repository, branch_name: &str) -> (r: AppResult<String>)
    ensures
        match r {
            Ok(outcome) => outcome@ == "fast-forward"@ || outcome@.len() == 7,
            Err(e) => e.is_store_failure() || e.plain("MERGE_CONFLICT"@, "Conflitos de merge detectados"@),
        },
{
    let branch_ref = local_ref_name(branch_name);
    let branch_id = match refname_to_id(repo, branch_ref.as_str()) {
        Ok(id) => id,
        Err(e) => {
            return Err(AppError::git_error(e));
        },
    };
    let branch_commit = match find_commit(repo, branch_id) {
        Ok(commit) => commit,
        Err(e) => {
            return Err(AppError::git_error(e));
        },
    };
    let reference = match head(repo) {
        Ok(reference) => reference,
        Err(e) => {
            return Err(AppError::git_error(e));
        },
    };
    let head_commit = match peel_to_commit(&reference) {
        Ok(commit) => commit,
        Err(e) => {
            return Err(AppError::git_error(e));
        },
    };
    let base = match merge_base(repo, commit_id(&head_commit), commit_id(&branch_commit)) {
        Ok(base) => base,
        Err(e) => {
            return Err(AppError::git_error(e));
        },
    };
    let head_hex = oid_hex(commit_id(&head_commit));
    let base_hex = oid_hex(base);
    merge_planned(
        repo,
        branch_name,
        &reference,
        head_commit,
        branch_commit,
        head_hex.as_str(),
        base_hex.as_str(),
    )
}

} // verus!
