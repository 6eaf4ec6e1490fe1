//! The registry of open repositories: which paths are open, under which
//! id, and which one of them is active.

use vstd::prelude::*;
use crate::error::AppError;
use crate::error::AppResult;
use crate::repository::get_repo_info;
use crate::repository::shown_name;
use crate::store::paths::path_from;
use crate::store::repos::repo_open;
use crate::text::same_text;

verus! {

/// One open repository.
struct RepoEntry {
    id: String,
    path: String,
}

/// One open repository, as it is shown: its id and path, the name of the
/// repository, and whether it is the active one.
#[derive(Debug, Clone)]
pub struct OpenRepoInfo {
    pub id: String,
    pub path: String,
    pub name: String,
    pub is_active: bool,
}

/// The open repositories and the active one among them.
pub struct AppState {
    entries: Vec<RepoEntry>,
    active: Option<String>,
}

/// Whether no two entries share an id.
spec fn distinct_ids(entries: Seq<RepoEntry>) -> bool {
    forall|i: int, j: int| 0 <= i < j < entries.len() ==> entries[i].id@ != entries[j].id@
}

/// Whether some entry has the id `id`.
spec fn has_id(entries: Seq<RepoEntry>, id: Seq<char>) -> bool {
    exists|i: int| 0 <= i < entries.len() && (#[trigger] entries[i]).id@ == id
}

/// The position of the entry with id `id`.
spec fn position_of(entries: Seq<RepoEntry>, id: Seq<char>) -> int {
    choose|i: int| 0 <= i < entries.len() && (#[trigger] entries[i]).id@ == id
}

/// The map from ids to paths that the entries stand for.
spec fn entries_map(entries: Seq<RepoEntry>) -> Map<Seq<char>, Seq<char>> {
    Map::new(|id: Seq<char>| has_id(entries, id), |id: Seq<char>| entries[position_of(entries, id)].path@)
}

impl AppState {
    #[verifier::type_invariant]
    spec fn inv(self) -> bool {
        &&& distinct_ids(self.entries@)
        &&& self.active matches Some(id) ==> has_id(self.entries@, id@)
    }

    /// The open repositories: the path registered under each id.
    pub closed spec fn repos(&self) -> Map<Seq<char>, Seq<char>> {
        entries_map(self.entries@)
    }

    /// The id of the active repository, if one is active.
    pub closed spec fn active(&self) -> Option<Seq<char>> {
        match self.active {
            Some(id) => Some(id@),
            None => None,
        }
    }

    /// The id under which the repository at `path` is registered: the path
    /// itself.
    pub open spec fn id_of(path: Seq<char>) -> Seq<char> {
        path
    }

    /// The invariant of the registry: an active id is the id of an open
    /// repository.
    pub open spec fn consistent(&self) -> bool {
        self.active() matches Some(id) ==> self.repos().contains_key(id)
    }

    /// A registry with no repository open.
    pub fn new() -> (state: Self)
        ensures
            state.repos() == Map::<Seq<char>, Seq<char>>::empty(),
            state.active() is None,
            state.consistent(),
    {
        let state = AppState { entries: Vec::new(), active: None };
        assert(state.repos() =~= Map::<Seq<char>, Seq<char>>::empty());
        state
    }

    /// The id under which the repository at `path` is registered.
    pub fn path_to_id(path: &str) -> (id: String)
        ensures
            id@ == Self::id_of(path@),
    {
        path.to_owned()
    }

    /// The path of the active repository, if one is active.
    pub fn get_repo_path(&self) -> (path: Option<String>)
        ensures
            self.consistent(),
            match path {
                Some(p) => self.active() matches Some(id) && p@ == self.repos()[id],
                None => self.active() is None,
            },
    {
        proof {
            use_type_invariant(self);
        }
        match &self.active {
            Some(id) => {
                let i = find_entry(&self.entries, id.as_str());
                match i {
                    Some(i) => {
                        proof {
                            lemma_lookup(self.entries@, i as int);
                        }
                        Some(self.entries[i].path.clone())
                    },
                    None => None,
                }
            },
            None => None,
        }
    }

    /// Registers the repository at `path` under its id, in place of what
    /// was registered under that id before, makes it the active one, and
    /// returns the id. Registering a path twice changes nothing the second
    /// time.
    pub fn set_repo_path(&mut self, path: String) -> (id: String)
        ensures
            id@ == Self::id_of(path@),
            final(self).repos() == old(self).repos().insert(Self::id_of(path@), path@),
            final(self).active() == Some(Self::id_of(path@)),
            final(self).consistent(),
    {
        proof {
            use_type_invariant(&*self);
        }
        let mut taken = AppState::new();
        std::mem::swap(self, &mut taken);
        let AppState { entries, active: _ } = taken;
        let mut entries = entries;
        let ghost before = entries@;
        let id = Self::path_to_id(path.as_str());
        let active = id.clone();
        let given = id.clone();
        match find_entry(&entries, id.as_str()) {
            Some(i) => {
                entries.set(i, RepoEntry { id, path });
                proof {
                    lemma_replace(before, i as int, entries@[i as int]);
                }
            },
            None => {
                entries.push(RepoEntry { id, path });
                proof {
                    lemma_append(before, entries@.last());
                }
            },
        }
        *self = AppState { entries, active: Some(active) };
        given
    }

    /// Makes the repository with id `id` the active one, if it is open;
    /// tells whether it is.
    pub fn set_active_repo(&mut self, id: &str) -> (known: bool)
        ensures
            known == old(self).repos().contains_key(id@),
            final(self).repos() == old(self).repos(),
            final(self).active() == if known {
                Some(id@)
            } else {
                old(self).active()
            },
            final(self).consistent(),
    {
        proof {
            use_type_invariant(&*self);
        }
        match find_entry(&self.entries, id) {
            Some(_) => {
                self.active = Some(id.to_owned());
                true
            },
            None => false,
        }
    }

    /// Closes the repository with id `id`. When it was the active one,
    /// another open repository becomes active, or none when no repository
    /// is left open.
    pub fn close_repo_by_id(&mut self, id: &str)
        ensures
            final(self).repos() == old(self).repos().remove(id@),
            old(self).active() != Some(id@) ==> final(self).active() == old(self).active(),
            old(self).active() == Some(id@) ==> (final(self).active() is None <==> final(self).repos()
                == Map::<Seq<char>, Seq<char>>::empty()),
            final(self).consistent(),
    {
        proof {
            use_type_invariant(&*self);
        }
        let mut taken = AppState::new();
        std::mem::swap(self, &mut taken);
        let AppState { entries, active } = taken;
        let mut entries = entries;
        let ghost before = entries@;
        match find_entry(&entries, id) {
            Some(i) => {
                entries.remove(i);
                proof {
                    lemma_remove(before, i as int);
                }
            },
            None => {
                assert(entries_map(before).remove(id@) =~= entries_map(before));
            },
        }
        let was_active = match &active {
            Some(a) => same_text(a.as_str(), id),
            None => false,
        };
        let next = if was_active {
            if entries.len() > 0 {
                assert(has_id(entries@, entries@[0].id@));
                assert(entries_map(entries@).contains_key(entries@[0].id@));
                assert(!Map::<Seq<char>, Seq<char>>::empty().contains_key(entries@[0].id@));
                Some(entries[0].id.clone())
            } else {
                assert(entries_map(entries@) =~= Map::<Seq<char>, Seq<char>>::empty());
                None
            }
        } else {
            proof {
                if active is Some {
                    let a = active->Some_0@;
                    assert(entries_map(entries@).contains_key(a));
                }
            }
            active
        };
        *self = AppState { entries, active: next };
    }

    /// Closes the active repository, if one is active. Another open
    /// repository then becomes active, or none when no repository is left
    /// open.
    pub fn clear_repo(&mut self)
        ensures
            match old(self).active() {
                Some(id) => {
                    &&& final(self).repos() == old(self).repos().remove(id)
                    &&& final(self).active() is None <==> final(self).repos() == Map::<
                        Seq<char>,
                        Seq<char>,
                    >::empty()
                },
                None => final(self).repos() == old(self).repos() && final(self).active() is None,
            },
            final(self).consistent(),
    {
        proof {
            use_type_invariant(&*self);
        }
        let active = match &self.active {
            Some(id) => Some(id.clone()),
            None => None,
        };
        match active {
            Some(id) => {
                self.close_repo_by_id(id.as_str());
            },
            None => {},
        }
    }

    /// Id and path of every open repository, each once, in no particular
    /// order.
    pub fn get_open_repos(&self) -> (listed: Vec<(String, String)>)
        ensures
            forall|i: int|
                0 <= i < listed@.len() ==> {
                    &&& self.repos().contains_key((#[trigger] listed@[i]).0@)
                    &&& self.repos()[listed@[i].0@] == listed@[i].1@
                },
            forall|i: int, j: int| 0 <= i < j < listed@.len() ==> listed@[i].0@ != listed@[j].0@,
            forall|id: Seq<char>|
                self.repos().contains_key(id) ==> exists|i: int|
                    0 <= i < listed@.len() && (#[trigger] listed@[i]).0@ == id,
    {
        proof {
            use_type_invariant(self);
        }
        let mut listed: Vec<(String, String)> = Vec::new();
        let mut i: usize = 0;
        while i < self.entries.len()
            invariant
                i <= self.entries.len(),
                distinct_ids(self.entries@),
                listed@.len() == i,
                forall|k: int|
                    0 <= k < i ==> (#[trigger] listed@[k]).0@ == self.entries@[k].id@ && listed@[k].1@
                        == self.entries@[k].path@,
            decreases self.entries.len() - i,
        {
            listed.push((self.entries[i].id.clone(), self.entries[i].path.clone()));
            i = i + 1;
        }
        proof {
            assert forall|k: int| 0 <= k < listed@.len() implies {
                &&& self.repos().contains_key((#[trigger] listed@[k]).0@)
                &&& self.repos()[listed@[k].0@] == listed@[k].1@
            } by {
                lemma_lookup(self.entries@, k);
            }
            assert forall|id: Seq<char>| self.repos().contains_key(id) implies exists|k: int|
                0 <= k < listed@.len() && (#[trigger] listed@[k]).0@ == id by {
                let k = position_of(self.entries@, id);
                assert(listed@[k].0@ == id);
            }
        }
        listed
    }

    /// Every open repository as it is shown, each once, in no particular
    /// order: under its id and path, with the name that the repository at
    /// that path goes by, and marked when it is the active one.
    pub fn describe_open_repos(&self) -> (shown: Vec<OpenRepoInfo>)
        ensures
            forall|i: int|
                0 <= i < shown@.len() ==> {
                    &&& self.repos().contains_key((#[trigger] shown@[i]).id@)
                    &&& self.repos()[shown@[i].id@] == shown@[i].path@
                    &&& shown@[i].name@ == shown_name(shown@[i].path@)
                    &&& shown@[i].is_active == (self.active() == Some(shown@[i].id@))
                },
            forall|i: int, j: int| 0 <= i < j < shown@.len() ==> shown@[i].id@ != shown@[j].id@,
            forall|id: Seq<char>|
                self.repos().contains_key(id) ==> exists|i: int|
                    0 <= i < shown@.len() && (#[trigger] shown@[i]).id@ == id,
    {
        let listed = self.get_open_repos();
        let active = self.get_active_repo_id();
        let ghost all = listed@;
        let shown = describe_repos(listed, &active);
        proof {
            assert forall|id: Seq<char>| self.repos().contains_key(id) implies exists|i: int|
                0 <= i < shown@.len() && (#[trigger] shown@[i]).id@ == id by {
                let i = choose|i: int| 0 <= i < all.len() && (#[trigger] all[i]).0@ == id;
                assert(shown@[i].id@ == id);
            }
        }
        shown
    }

    /// The id of the active repository, if one is active.
    pub fn get_active_repo_id(&self) -> (id: Option<String>)
        ensures
            match id {
                Some(text) => self.active() == Some(text@),
                None => self.active() is None,
            },
    {
        match &self.active {
            Some(id) => Some(id.clone()),
            None => None,
        }
    }

    /// The path of the active repository; `NO_REPO` when none is active.
    pub fn require_repo_path(&self) -> (r: AppResult<String>)
        ensures
            match r {
                Ok(path) => self.active() matches Some(id) && path@ == self.repos()[id],
                Err(e) => self.active() is None && e.plain("NO_REPO"@, "Nenhum repositório aberto"@),
            },
    {
        match self.get_repo_path() {
            Some(path) => Ok(path),
            None => Err(AppError::no_repo()),
        }
    }

    /// Opens the active repository; `NO_REPO` when none is active.
    pub fn open_repo(&self) -> (r: AppResult<git2::Repository>)
        ensures
            self.active() is None ==> r is Err,
            r matches Err(e) ==> if self.active() is None {
                e.plain("NO_REPO"@, "Nenhum repositório aberto"@)
            } else {
                e.is_store_failure()
            },
    {
        let path = match self.require_repo_path() {
            Ok(path) => path,
            Err(e) => {
                return Err(e);
            },
        };
        match repo_open(&path_from(path.as_str())) {
            Ok(repo) => Ok(repo),
            Err(e) => Err(AppError::git_error(e)),
        }
    }
}

/// The listed repositories as they are shown, in the same order: each
/// under its id and path, with the name that the repository at that path
/// goes by, and marked when its id is the active one.
pub fn describe_repos(listed: Vec<(String, String)>, active: &Option<String>) -> (shown: Vec<OpenRepoInfo>)
    ensures
        shown@.len() == listed@.len(),
        forall|k: int|
            0 <= k < shown@.len() ==> {
                &&& (#[trigger] shown@[k]).id@ == listed@[k].0@
                &&& shown@[k].path@ == listed@[k].1@
                &&& shown@[k].name@ == shown_name(listed@[k].1@)
                &&& shown@[k].is_active == match active {
                    Some(text) => text@ == listed@[k].0@,
                    None => false,
                }
            },
{
    let ghost all = listed@;
    let mut rest = listed;
    let mut shown: Vec<OpenRepoInfo> = Vec::new();
    while rest.len() > 0
        invariant
            shown@.len() + rest@.len() == all.len(),
            rest@ == all.skip(shown@.len() as int),
            forall|k: int|
                0 <= k < shown@.len() ==> {
                    &&& (#[trigger] shown@[k]).id@ == all[k].0@
                    &&& shown@[k].path@ == all[k].1@
                    &&& shown@[k].name@ == shown_name(all[k].1@)
                    &&& shown@[k].is_active == match active {
                        Some(text) => text@ == all[k].0@,
                        None => false,
                    }
                },
        decreases rest.len(),
    {
        let (id, path) = rest.remove(0);
        let name = match get_repo_info(path.as_str()) {
            Ok(info) => info.name,
            Err(_) => String::new(),
        };
        let is_active = match active {
            Some(text) => same_text(text.as_str(), id.as_str()),
            None => false,
        };
        shown.push(OpenRepoInfo { id, path, name, is_active });
        assert(rest@ =~= all.skip(shown@.len() as int));
    }
    shown
}

/// The position of the entry with id `id`, if there is one.
fn find_entry(entries: &Vec<RepoEntry>, id: &str) -> (found: Option<usize>)
    ensures
        match found {
            Some(i) => i < entries@.len() && entries@[i as int].id@ == id@,
            None => !has_id(entries@, id@),
        },
{
    let mut i: usize = 0;
    while i < entries.len()
        invariant
            i <= entries.len(),
            forall|k: int| 0 <= k < i ==> (#[trigger] entries@[k]).id@ != id@,
        decreases entries.len() - i,
    {
        if same_text(entries[i].id.as_str(), id) {
            return Some(i);
        }
        i = i + 1;
    }
    None
}

/// With distinct ids, the entry at a position is the one its id looks up.
proof fn lemma_lookup(entries: Seq<RepoEntry>, i: int)
    requires
        distinct_ids(entries),
        0 <= i < entries.len(),
    ensures
        has_id(entries, entries[i].id@),
        position_of(entries, entries[i].id@) == i,
        entries_map(entries).contains_key(entries[i].id@),
        entries_map(entries)[entries[i].id@] == entries[i].path@,
{
    assert(has_id(entries, entries[i].id@));
    let p = position_of(entries, entries[i].id@);
    if p != i {
        if p < i {
            assert(entries[p].id@ != entries[i].id@);
        } else {
            assert(entries[i].id@ != entries[p].id@);
        }
    }
}

/// Appending an entry with a fresh id inserts it into the map.
proof fn lemma_append(entries: Seq<RepoEntry>, entry: RepoEntry)
    requires
        distinct_ids(entries),
        !has_id(entries, entry.id@),
    ensures
        distinct_ids(entries.push(entry)),
        has_id(entries.push(entry), entry.id@),
        entries_map(entries.push(entry)) == entries_map(entries).insert(entry.id@, entry.path@),
{
    let after = entries.push(entry);
    assert forall|i: int, j: int| 0 <= i < j < after.len() implies after[i].id@ != after[j].id@ by {
        if j == entries.len() {
            assert(entries[i].id@ != entry.id@);
        }
    }
    assert(after[entries.len() as int].id@ == entry.id@);
    assert forall|id: Seq<char>| has_id(after, id) <==> (id == entry.id@ || has_id(entries, id)) by {
        if has_id(after, id) {
            let p = position_of(after, id);
            if p < entries.len() {
                assert(entries[p].id@ == id);
            }
        }
        if has_id(entries, id) {
            let p = position_of(entries, id);
            assert(after[p].id@ == id);
        }
    }
    assert forall|id: Seq<char>| has_id(after, id) implies #[trigger] entries_map(after)[id]
        == entries_map(entries).insert(entry.id@, entry.path@)[id] by {
        let p = position_of(after, id);
        lemma_lookup(after, p);
        if p < entries.len() {
            lemma_lookup(entries, p);
        }
    }
    assert(entries_map(after) =~= entries_map(entries).insert(entry.id@, entry.path@));
}

/// Replacing the entry at a position by one with the same id replaces its
/// path in the map.
proof fn lemma_replace(entries: Seq<RepoEntry>, i: int, entry: RepoEntry)
    requires
        distinct_ids(entries),
        0 <= i < entries.len(),
        entries[i].id@ == entry.id@,
    ensures
        distinct_ids(entries.update(i, entry)),
        has_id(entries.update(i, entry), entry.id@),
        entries_map(entries.update(i, entry)) == entries_map(entries).insert(entry.id@, entry.path@),
{
    let after = entries.update(i, entry);
    assert forall|a: int, b: int| 0 <= a < b < after.len() implies after[a].id@ != after[b].id@ by {
        assert(after[a].id@ == entries[a].id@);
        assert(after[b].id@ == entries[b].id@);
    }
    assert(after[i].id@ == entry.id@);
    assert forall|id: Seq<char>| has_id(after, id) <==> has_id(entries, id) by {
        if has_id(after, id) {
            let p = position_of(after, id);
            assert(entries[p].id@ == id);
        }
        if has_id(entries, id) {
            let p = position_of(entries, id);
            assert(after[p].id@ == id);
        }
    }
    assert forall|id: Seq<char>| has_id(after, id) implies #[trigger] entries_map(after)[id]
        == entries_map(entries).insert(entry.id@, entry.path@)[id] by {
        let p = position_of(after, id);
        lemma_lookup(after, p);
        lemma_lookup(entries, p);
    }
    assert(entries_map(after) =~= entries_map(entries).insert(entry.id@, entry.path@));
}

/// Removing the entry at a position removes its id from the map.
proof fn lemma_remove(entries: Seq<RepoEntry>, i: int)
    requires
        distinct_ids(entries),
        0 <= i < entries.len(),
    ensures
        distinct_ids(entries.remove(i)),
        !has_id(entries.remove(i), entries[i].id@),
        entries_map(entries.remove(i)) == entries_map(entries).remove(entries[i].id@),
        forall|id: Seq<char>| id != entries[i].id@ && has_id(entries, id) ==> has_id(entries.remove(i), id),
{
    let after = entries.remove(i);
    let gone = entries[i].id@;
    assert forall|k: int| 0 <= k < after.len() implies #[trigger] after[k] == entries[if k < i {
        k
    } else {
        k + 1
    }] by {}
    assert forall|a: int, b: int| 0 <= a < b < after.len() implies after[a].id@ != after[b].id@ by {
        let x = if a < i { a } else { a + 1 };
        let y = if b < i { b } else { b + 1 };
        assert(after[a] == entries[x]);
        assert(after[b] == entries[y]);
    }
    assert forall|id: Seq<char>| has_id(after, id) <==> (id != gone && has_id(entries, id)) by {
        if has_id(after, id) {
            let p = position_of(after, id);
            let x = if p < i { p } else { p + 1 };
            assert(after[p] == entries[x]);
            assert(entries[x].id@ == id);
            if id == gone {
                if x < i {
                    assert(entries[x].id@ != entries[i].id@);
                } else {
                    assert(entries[i].id@ != entries[x].id@);
                }
            }
        }
        if id != gone && has_id(entries, id) {
            let p = position_of(entries, id);
            let x = if p < i { p } else { p - 1 };
            assert(after[x] == entries[p]);
            assert(after[x].id@ == id);
        }
    }
    assert forall|id: Seq<char>| has_id(after, id) implies #[trigger] entries_map(after)[id]
        == entries_map(entries).remove(gone)[id] by {
        let p = position_of(after, id);
        let x = if p < i { p } else { p + 1 };
        assert(after[p] == entries[x]);
        lemma_lookup(after, p);
        lemma_lookup(entries, x);
    }
    assert(entries_map(after) =~= entries_map(entries).remove(gone));
}

impl Default for AppState {
    fn default() -> (state: Self)
        ensures
            state.repos() == Map::<Seq<char>, Seq<char>>::empty(),
            state.active() is None,
    {
        Self::new()
    }
}

} // verus!
