use git_gui::branch::checkout_found;
use git_gui::branch::conclude_merge;
use git_gui::branch::create_new_branch;
use git_gui::branch::incoming_side;
use git_gui::branch::plan_checkout;
use git_gui::branch::refuse_unmerged;
use git_gui::branch::CheckoutPlan;
use git_gui::commit::blob_or_refuse;
use git_gui::commit::commit_on;
use git_gui::commit::plan_commit;
use git_gui::commit::plan_stage;
use git_gui::commit::plan_unstage;
use git_gui::commit::record_applied;
use git_gui::commit::CommitPlan;
use git_gui::commit::StagePlan;
use git_gui::commit::UnstagePlan;
use git_gui::conflict::refuse_conflicts;
use git_gui::remote::conclude_pull;
use git_gui::remote::plan_pull;
use git_gui::remote::PullPlan;
use git_gui::repository::display_name;
use git_gui::repository::name_or_path;
use git_gui::repository::open_at;
use git_gui::stash::clear_stashes;
use git_gui::stash::list_stashes;
use git_gui::stash::stash_record;
use git_gui::store::stashes::LogRecord;
use git_gui::store::worktree::ConflictSides;
use git_gui::text::is_space;

struct Bench {
    dir: tempfile::TempDir,
    repo: git2::Repository,
}

fn bench() -> Bench {
    let dir = tempfile::tempdir().unwrap();
    let mut options = git2::RepositoryInitOptions::new();
    options.initial_head("main");
    let repo = git2::Repository::init_opts(dir.path(), &options).unwrap();
    {
        let mut config = repo.config().unwrap();
        config.set_str("user.name", "Tester").unwrap();
        config.set_str("user.email", "tester@example.com").unwrap();
    }
    Bench { dir, repo }
}

fn put(b: &Bench, name: &str, content: &str) {
    let mut file = tempfile::NamedTempFile::new_in(b.dir.path()).unwrap();
    std::io::Write::write_all(&mut file, content.as_bytes()).unwrap();
    file.persist(b.dir.path().join(name)).unwrap();
}

fn stage(b: &Bench, name: &str, content: &str) {
    put(b, name, content);
    let mut index = b.repo.index().unwrap();
    index.add_path(std::path::Path::new(name)).unwrap();
    index.write().unwrap();
}

fn record(b: &Bench, name: &str, content: &str, message: &str) -> git2::Oid {
    stage(b, name, content);
    let mut index = b.repo.index().unwrap();
    let tree = b.repo.find_tree(index.write_tree().unwrap()).unwrap();
    let signature = b.repo.signature().unwrap();
    let parents: Vec<git2::Commit> = match b.repo.head() {
        Ok(head) => vec![head.peel_to_commit().unwrap()],
        Err(_) => Vec::new(),
    };
    let refs: Vec<&git2::Commit> = parents.iter().collect();
    b.repo.commit(Some("HEAD"), &signature, &signature, message, &tree, &refs).unwrap()
}

fn tip(b: &Bench) -> git2::Oid {
    b.repo.head().unwrap().peel_to_commit().unwrap().id()
}

fn current(b: &Bench) -> String {
    b.repo.head().unwrap().shorthand().unwrap().to_string()
}

fn hard_reset(b: &Bench, id: git2::Oid) {
    b.repo.reset(b.repo.find_commit(id).unwrap().as_object(), git2::ResetType::Hard, None).unwrap();
}

fn local<'r>(b: &'r Bench, name: &str) -> Option<git2::Branch<'r>> {
    b.repo.find_branch(name, git2::BranchType::Local).ok()
}

fn remote<'r>(b: &'r Bench, name: &str) -> Option<git2::Branch<'r>> {
    b.repo.find_branch(name, git2::BranchType::Remote).ok()
}

#[test]
fn checkout_route_for_every_outcome_of_the_lookups() {
    for short_local in [false, true] {
        for remote in [false, true] {
            assert_eq!(plan_checkout(true, remote, short_local), CheckoutPlan::Local);
        }
        assert_eq!(plan_checkout(false, false, short_local), CheckoutPlan::NotFound);
    }
    assert_eq!(plan_checkout(false, true, true), CheckoutPlan::ReuseLocal);
    assert_eq!(plan_checkout(false, true, false), CheckoutPlan::CreateLocal);
}

#[test]
fn checkout_without_a_branch_is_not_found() {
    let b = bench();
    record(&b, "f.txt", "1\n", "A");
    for short_local in [false, true] {
        let e = checkout_found(&b.repo, "main", None, None, short_local).unwrap_err();
        assert_eq!(e.code, "BRANCH_NOT_FOUND");
        assert_eq!(e.message, "Branch não encontrada");
        assert_eq!(e.details.as_deref(), Some("main"));
    }
    assert_eq!(current(&b), "main");
}

#[test]
fn checkout_prefers_the_local_branch() {
    let b = bench();
    let a = record(&b, "f.txt", "1\n", "A");
    b.repo.branch("topic", &b.repo.find_commit(a).unwrap(), false).unwrap();
    let later = record(&b, "f.txt", "2\n", "B");
    b.repo.reference("refs/remotes/origin/topic", later, true, "test").unwrap();
    checkout_found(&b.repo, "topic", local(&b, "topic"), remote(&b, "origin/topic"), true).unwrap();
    assert_eq!(current(&b), "topic");
    assert_eq!(tip(&b), a);
}

#[test]
fn checkout_of_a_remote_branch_follows_what_it_is_told_of_the_local_one() {
    let b = bench();
    let a = record(&b, "f.txt", "1\n", "A");
    b.repo.reference("refs/remotes/origin/topic", a, true, "test").unwrap();
    let e = checkout_found(&b.repo, "origin/topic", None, remote(&b, "origin/topic"), true).unwrap_err();
    assert_eq!(e.code, "CHECKOUT_ERROR");
    assert_eq!(e.message, "Erro ao encontrar referência local");
    assert!(local(&b, "topic").is_none());
    checkout_found(&b.repo, "origin/topic", None, remote(&b, "origin/topic"), false).unwrap();
    assert_eq!(current(&b), "topic");
    assert!(local(&b, "topic").is_some());
    checkout_found(&b.repo, "main", local(&b, "main"), None, false).unwrap();
    assert_eq!(current(&b), "main");
    let e = checkout_found(&b.repo, "origin/topic", None, remote(&b, "origin/topic"), false).unwrap_err();
    assert_eq!(e.code, "CHECKOUT_ERROR");
    assert_eq!(e.message, "Erro ao criar branch local");
    assert_eq!(current(&b), "main");
    checkout_found(&b.repo, "origin/topic", None, remote(&b, "origin/topic"), true).unwrap();
    assert_eq!(current(&b), "topic");
}

#[test]
fn new_branch_is_refused_exactly_when_one_exists() {
    let b = bench();
    let a = record(&b, "f.txt", "1\n", "A");
    let e = create_new_branch(&b.repo, "fresh", false, true).unwrap_err();
    assert_eq!(e.code, "BRANCH_EXISTS");
    assert_eq!(e.message, "Branch já existe");
    assert_eq!(e.details.as_deref(), Some("fresh"));
    assert!(local(&b, "fresh").is_none());
    create_new_branch(&b.repo, "fresh", false, false).unwrap();
    assert_eq!(local(&b, "fresh").unwrap().get().target(), Some(a));
    assert_eq!(current(&b), "main");
    assert_eq!(create_new_branch(&b.repo, "fresh", false, false).unwrap_err().code, "GIT_ERROR");
    create_new_branch(&b.repo, "next", true, false).unwrap();
    assert_eq!(current(&b), "next");
}

#[test]
fn unmerged_branch_stays() {
    assert!(refuse_unmerged(true).is_ok());
    let e = refuse_unmerged(false).unwrap_err();
    assert_eq!(e.code, "BRANCH_NOT_MERGED");
    assert_eq!(e.message, "Branch não foi merged");
    assert_eq!(e.details.as_deref(), Some("Use force delete para deletar mesmo assim"));
}

#[test]
fn conflicts_are_refused() {
    assert!(refuse_conflicts(false).is_ok());
    let e = refuse_conflicts(true).unwrap_err();
    assert_eq!(e.code, "MERGE_CONFLICT");
    assert_eq!(e.message, "Conflitos de merge detectados");
    assert_eq!(e.details, None);
}

fn entry(path: &str) -> git2::IndexEntry {
    git2::IndexEntry {
        ctime: git2::IndexTime::new(0, 0),
        mtime: git2::IndexTime::new(0, 0),
        dev: 0,
        ino: 0,
        mode: 0o100644,
        uid: 0,
        gid: 0,
        file_size: 0,
        id: git2::Oid::zero(),
        flags: 0,
        flags_extended: 0,
        path: path.as_bytes().to_vec(),
    }
}

fn sides(ancestor: Option<&str>, our: Option<&str>, their: Option<&str>) -> ConflictSides {
    ConflictSides { ancestor: ancestor.map(entry), our: our.map(entry), their: their.map(entry) }
}

#[test]
fn incoming_side_is_their_entries_in_order() {
    assert!(incoming_side(Vec::new()).is_empty());
    let walk = vec![
        Ok(sides(Some("a0"), Some("a1"), Some("a2"))),
        Ok(sides(Some("b0"), Some("b1"), None)),
        Err(git2::Error::from_str("unreadable")),
        Ok(sides(None, None, Some("c2"))),
        Ok(sides(None, Some("d1"), Some("d2"))),
    ];
    let incoming = incoming_side(walk);
    let paths: Vec<String> =
        incoming.iter().map(|e| String::from_utf8(e.path.clone()).unwrap()).collect();
    assert_eq!(paths, vec!["a2", "c2", "d2"]);
}

struct Fork {
    base: git2::Oid,
    ours: git2::Oid,
    theirs: git2::Oid,
}

fn fork(b: &Bench, our_file: &str, their_file: &str) -> Fork {
    let base = record(b, "f.txt", "base\n", "A");
    let theirs = record(b, their_file, "theirs\n", "T");
    hard_reset(b, base);
    let ours = record(b, our_file, "ours\n", "O");
    Fork { base, ours, theirs }
}

#[test]
fn merge_with_conflicts_stages_the_incoming_side_and_commits_nothing() {
    let b = bench();
    let f = fork(&b, "f.txt", "f.txt");
    let ours = b.repo.find_commit(f.ours).unwrap();
    let theirs = b.repo.find_commit(f.theirs).unwrap();
    let mut merged = b.repo.merge_commits(&ours, &theirs, None).unwrap();
    assert!(merged.has_conflicts());
    let signature = b.repo.signature().unwrap();
    let e = conclude_merge(&b.repo, &mut merged, true, &signature, ours, theirs, "feature").unwrap_err();
    assert_eq!(e.code, "MERGE_CONFLICT");
    assert_eq!(tip(&b), f.ours);
    let index = b.repo.index().unwrap();
    let staged = index.get_path(std::path::Path::new("f.txt"), 3).unwrap();
    assert_eq!(b.repo.find_blob(staged.id).unwrap().content(), b"theirs\n");
    assert!(index.get_path(std::path::Path::new("f.txt"), 1).is_none());
    assert!(index.get_path(std::path::Path::new("f.txt"), 2).is_none());
    assert_ne!(f.base, f.ours);
}

#[test]
fn merge_told_of_conflicts_commits_nothing() {
    let b = bench();
    let f = fork(&b, "ours.txt", "theirs.txt");
    let ours = b.repo.find_commit(f.ours).unwrap();
    let theirs = b.repo.find_commit(f.theirs).unwrap();
    let mut merged = b.repo.merge_commits(&ours, &theirs, None).unwrap();
    let signature = b.repo.signature().unwrap();
    let e = conclude_merge(&b.repo, &mut merged, true, &signature, ours, theirs, "feature").unwrap_err();
    assert_eq!(e.code, "MERGE_CONFLICT");
    assert_eq!(tip(&b), f.ours);
}

#[test]
fn merge_without_conflicts_commits_on_both_tips() {
    let b = bench();
    let f = fork(&b, "ours.txt", "theirs.txt");
    let ours = b.repo.find_commit(f.ours).unwrap();
    let theirs = b.repo.find_commit(f.theirs).unwrap();
    let mut merged = b.repo.merge_commits(&ours, &theirs, None).unwrap();
    let signature = b.repo.signature().unwrap();
    let id = conclude_merge(&b.repo, &mut merged, false, &signature, ours, theirs, "feature").unwrap();
    let made = b.repo.head().unwrap().peel_to_commit().unwrap();
    assert_eq!(id, made.id().to_string()[..7]);
    assert_eq!(made.message(), Some("Merge branch 'feature'"));
    assert_eq!(made.parent_ids().collect::<Vec<_>>(), vec![f.ours, f.theirs]);
}

#[test]
fn pull_is_up_to_date_exactly_on_the_same_commit() {
    assert_eq!(plan_pull("abc", "abc"), PullPlan::UpToDate);
    assert_eq!(plan_pull("", ""), PullPlan::UpToDate);
    assert_eq!(plan_pull("abc", "abd"), PullPlan::Integrate);
    assert_eq!(plan_pull("abc", "ab"), PullPlan::Integrate);
    assert_eq!(plan_pull("", "a"), PullPlan::Integrate);
}

#[test]
fn pull_told_of_conflicts_commits_nothing() {
    let b = bench();
    let f = fork(&b, "ours.txt", "theirs.txt");
    let ours = b.repo.find_commit(f.ours).unwrap();
    let theirs = b.repo.find_commit(f.theirs).unwrap();
    let mut merged = b.repo.merge_commits(&ours, &theirs, None).unwrap();
    let signature = b.repo.signature().unwrap();
    let e = conclude_pull(&b.repo, &mut merged, true, &signature, ours, theirs, "origin", "main")
        .unwrap_err();
    assert_eq!(e.code, "MERGE_CONFLICT");
    assert_eq!(e.message, "Conflitos de merge detectados");
    assert_eq!(tip(&b), f.ours);
}

#[test]
fn pull_without_conflicts_commits_on_both_tips() {
    let b = bench();
    let f = fork(&b, "ours.txt", "theirs.txt");
    let ours = b.repo.find_commit(f.ours).unwrap();
    let theirs = b.repo.find_commit(f.theirs).unwrap();
    let mut merged = b.repo.merge_commits(&ours, &theirs, None).unwrap();
    let signature = b.repo.signature().unwrap();
    let outcome =
        conclude_pull(&b.repo, &mut merged, false, &signature, ours, theirs, "origin", "main").unwrap();
    assert_eq!(outcome, "merge");
    let made = b.repo.head().unwrap().peel_to_commit().unwrap();
    assert_eq!(made.message(), Some("Merge remote-tracking branch 'origin/main'"));
    assert_eq!(made.parent_ids().collect::<Vec<_>>(), vec![f.ours, f.theirs]);
}

#[test]
fn commit_plan_for_every_case() {
    assert_eq!(plan_commit(true, true), CommitPlan::Amend);
    assert_eq!(plan_commit(true, false), CommitPlan::NothingToAmend);
    assert_eq!(plan_commit(false, true), CommitPlan::OnTip);
    assert_eq!(plan_commit(false, false), CommitPlan::Root);
}

fn staged_tree<'r>(b: &'r Bench) -> git2::Tree<'r> {
    let mut index = b.repo.index().unwrap();
    b.repo.find_tree(index.write_tree().unwrap()).unwrap()
}

#[test]
fn commit_without_a_tip_is_a_root_or_nothing() {
    let b = bench();
    stage(&b, "f.txt", "1\n");
    let signature = b.repo.signature().unwrap();
    let tree = staged_tree(&b);
    let e = commit_on(&b.repo, "amended", true, &signature, &tree, b.repo.head()).unwrap_err();
    assert_eq!(e.code, "GIT_ERROR");
    assert!(b.repo.head().is_err());
    let id = commit_on(&b.repo, "first", false, &signature, &tree, b.repo.head()).unwrap();
    let made = b.repo.head().unwrap().peel_to_commit().unwrap();
    assert_eq!(id, made.id().to_string()[..7]);
    assert_eq!(made.parent_count(), 0);
    assert_eq!(made.message(), Some("first"));
}

#[test]
fn commit_on_a_tip_extends_or_replaces_it() {
    let b = bench();
    let a = record(&b, "f.txt", "1\n", "A");
    stage(&b, "f.txt", "2\n");
    let signature = b.repo.signature().unwrap();
    let tree = staged_tree(&b);
    let id = commit_on(&b.repo, "second", false, &signature, &tree, b.repo.head()).unwrap();
    let second = b.repo.head().unwrap().peel_to_commit().unwrap();
    assert_eq!(id, second.id().to_string()[..7]);
    assert_eq!(second.parent_ids().collect::<Vec<_>>(), vec![a]);
    stage(&b, "f.txt", "3\n");
    let tree = staged_tree(&b);
    let id = commit_on(&b.repo, "second, again", true, &signature, &tree, b.repo.head()).unwrap();
    let replaced = b.repo.head().unwrap().peel_to_commit().unwrap();
    assert_eq!(id, replaced.id().to_string()[..7]);
    assert_ne!(replaced.id(), second.id());
    assert_eq!(replaced.parent_ids().collect::<Vec<_>>(), vec![a]);
    assert_eq!(replaced.message(), Some("second, again"));
    assert_eq!(replaced.tree_id(), tree.id());
}

#[test]
fn unstage_plan_for_every_case() {
    assert_eq!(plan_unstage(true, true), UnstagePlan::Restore);
    assert_eq!(plan_unstage(true, false), UnstagePlan::Remove);
    assert_eq!(plan_unstage(false, true), UnstagePlan::Remove);
    assert_eq!(plan_unstage(false, false), UnstagePlan::Remove);
}

#[test]
fn only_a_blob_restores_an_entry() {
    assert_eq!(blob_or_refuse(Some(vec![1, 2, 3])).unwrap(), vec![1, 2, 3]);
    assert_eq!(blob_or_refuse(Some(Vec::new())).unwrap(), Vec::<u8>::new());
    let e = blob_or_refuse(None).unwrap_err();
    assert_eq!(e.code, "INTERNAL_ERROR");
    assert_eq!(e.message, "Not a blob");
    assert_eq!(e.details, None);
}

#[test]
fn applied_change_is_recorded_unless_conflicted() {
    let b = bench();
    let a = record(&b, "f.txt", "1\n", "A");
    stage(&b, "f.txt", "2\n");
    let e = record_applied(&b.repo, "picked", true).unwrap_err();
    assert_eq!(e.code, "MERGE_CONFLICT");
    assert_eq!(e.message, "Conflitos de merge detectados");
    assert_eq!(tip(&b), a);
    let id = record_applied(&b.repo, "picked", false).unwrap();
    let made = b.repo.head().unwrap().peel_to_commit().unwrap();
    assert_eq!(id, made.id().to_string()[..7]);
    assert_eq!(made.parent_ids().collect::<Vec<_>>(), vec![a]);
    assert_eq!(made.message(), Some("picked"));
}

#[test]
fn stash_record_is_the_log_entry_at_its_position() {
    let id = "0123456789abcdef0123456789abcdef01234567".to_string();
    let made = stash_record(4, LogRecord { message: Some("On main: x".to_string()), id: id.clone() });
    assert_eq!(made.index, 4);
    assert_eq!(made.message, "On main: x");
    assert_eq!(made.id, id);
    let bare = stash_record(0, LogRecord { message: None, id: id.clone() });
    assert_eq!(bare.index, 0);
    assert_eq!(bare.message, "");
    assert_eq!(bare.id, id);
}

#[test]
fn repository_without_stash_has_an_empty_stack() {
    let mut b = bench();
    assert!(list_stashes(&mut b.repo).unwrap().is_empty());
    clear_stashes(&mut b.repo).unwrap();
    record(&b, "f.txt", "1\n", "A");
    assert!(list_stashes(&mut b.repo).unwrap().is_empty());
    clear_stashes(&mut b.repo).unwrap();
    assert!(b.repo.find_reference("refs/stash").is_err());
}

#[test]
fn stash_entry_without_message_is_listed_with_an_empty_one() {
    let mut b = bench();
    let a = record(&b, "f.txt", "1\n", "A");
    b.repo.reference("refs/stash", a, true, "").unwrap();
    {
        let signature = b.repo.signature().unwrap();
        let mut log = b.repo.reflog("refs/stash").unwrap();
        while log.len() > 0 {
            log.remove(0, false).unwrap();
        }
        log.append(a, &signature, None).unwrap();
        log.append(a, &signature, Some("On main: kept")).unwrap();
        log.write().unwrap();
    }
    let entries = list_stashes(&mut b.repo).unwrap();
    assert_eq!(entries.len(), 2);
    assert_eq!(entries[0].index, 0);
    assert_eq!(entries[0].message, "On main: kept");
    assert_eq!(entries[0].branch.as_deref(), Some("main"));
    assert_eq!(entries[0].commit_hash, a.to_string()[..7]);
    assert_eq!(entries[1].index, 1);
    assert_eq!(entries[1].message, "");
    assert_eq!(entries[1].commit_hash, a.to_string()[..7]);
}

#[test]
fn white_space_is_what_the_standard_library_calls_so() {
    let mut count = 0;
    for c in '\0'..=char::MAX {
        assert_eq!(is_space(c), c.is_whitespace(), "{:?}", c);
        if is_space(c) {
            count += 1;
        }
    }
    assert_eq!(count, 25);
    assert!(is_space(' ') && is_space('\t') && is_space('\n') && is_space('\u{3000}'));
    assert!(!is_space('a') && !is_space('\u{200b}') && !is_space('\0'));
}

#[test]
fn names_are_last_components() {
    assert_eq!(name_or_path(Some("project".to_string()), "/x/project"), "project");
    assert_eq!(name_or_path(None, "/"), "/");
    assert_eq!(name_or_path(Some(String::new()), "/x"), "");
    assert_eq!(display_name("/x/project"), "project");
    assert_eq!(display_name("/x/project/"), "project");
    assert_eq!(display_name("project"), "project");
    assert_eq!(display_name("/"), "/");
    assert_eq!(display_name("/x/.."), "/x/..");
    assert_eq!(display_name(""), "");
}

#[test]
fn a_path_is_added_when_it_exists_and_removed_when_not() {
    assert_eq!(plan_stage(true), StagePlan::Add);
    assert_eq!(plan_stage(false), StagePlan::Remove);
}

#[test]
fn opening_follows_what_it_is_told_of_the_path() {
    let b = bench();
    let path = b.dir.path().to_string_lossy().to_string();
    let e = open_at(&path, false).err().unwrap();
    assert_eq!(e.code, "REPO_NOT_FOUND");
    assert_eq!(e.message, "Caminho não encontrado");
    assert_eq!(e.details.as_deref(), Some(path.as_str()));
    assert!(open_at(&path, true).is_ok());
    let plain = tempfile::tempdir().unwrap();
    let plain_path = plain.path().to_string_lossy().to_string();
    let e = open_at(&plain_path, true).err().unwrap();
    assert_eq!(e.code, "INVALID_REPO");
    assert_eq!(e.message, "Diretório não é um repositório Git");
    assert_eq!(e.details.as_deref(), Some(plain_path.as_str()));
}
