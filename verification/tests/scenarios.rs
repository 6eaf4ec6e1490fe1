use git_gui::branch::checkout_branch;
use git_gui::branch::create_branch;
use git_gui::branch::delete_branch;
use git_gui::branch::get_current_branch;
use git_gui::branch::list_branches;
use git_gui::branch::merge_branch;
use git_gui::branch::rename_branch;
use git_gui::commit::list_commits;
use git_gui::stash::apply_stash;
use git_gui::stash::clear_stashes;
use git_gui::stash::create_stash;
use git_gui::stash::drop_stash;
use git_gui::stash::list_stashes;

struct Scratch {
    dir: tempfile::TempDir,
    repo: git2::Repository,
}

fn scratch() -> Scratch {
    let dir = tempfile::tempdir().unwrap();
    let mut options = git2::RepositoryInitOptions::new();
    options.initial_head("main");
    let repo = git2::Repository::init_opts(dir.path(), &options).unwrap();
    {
        let mut config = repo.config().unwrap();
        config.set_str("user.name", "Tester").unwrap();
        config.set_str("user.email", "tester@example.com").unwrap();
    }
    Scratch { dir, repo }
}

fn write(s: &Scratch, name: &str, content: &str) {
    let mut file = tempfile::NamedTempFile::new_in(s.dir.path()).unwrap();
    std::io::Write::write_all(&mut file, content.as_bytes()).unwrap();
    file.persist(s.dir.path().join(name)).unwrap();
}

fn read(s: &Scratch, name: &str) -> String {
    let id = s.repo.blob_path(&s.dir.path().join(name)).unwrap();
    let blob = s.repo.find_blob(id).unwrap();
    String::from_utf8(blob.content().to_vec()).unwrap()
}

fn commit(s: &Scratch, name: &str, content: &str, message: &str, seconds: i64) -> git2::Oid {
    write(s, name, content);
    let mut index = s.repo.index().unwrap();
    index.add_path(std::path::Path::new(name)).unwrap();
    index.write().unwrap();
    let tree = s.repo.find_tree(index.write_tree().unwrap()).unwrap();
    let signature =
        git2::Signature::new("Tester", "tester@example.com", &git2::Time::new(seconds, 0)).unwrap();
    let parents: Vec<git2::Commit> = match s.repo.head() {
        Ok(head) => vec![head.peel_to_commit().unwrap()],
        Err(_) => Vec::new(),
    };
    let refs: Vec<&git2::Commit> = parents.iter().collect();
    s.repo.commit(Some("HEAD"), &signature, &signature, message, &tree, &refs).unwrap()
}

fn short(id: git2::Oid) -> String {
    id.to_string()[..7].to_string()
}

fn head_id(s: &Scratch) -> git2::Oid {
    s.repo.head().unwrap().peel_to_commit().unwrap().id()
}

fn is_clean(s: &Scratch) -> bool {
    let mut options = git2::StatusOptions::new();
    options.include_untracked(true);
    s.repo.statuses(Some(&mut options)).unwrap().is_empty()
}

#[test]
fn linear_history_is_listed_newest_first() {
    let s = scratch();
    let a = commit(&s, "f.txt", "1\n", "A", 1000);
    let b = commit(&s, "f.txt", "2\n", "B", 2000);
    let c = commit(&s, "f.txt", "3\n", "C", 3000);
    let all = list_commits(&s.repo, None, 100, 0).unwrap();
    let ids: Vec<&str> = all.iter().map(|x| x.hash.as_str()).collect();
    assert_eq!(ids, vec![c.to_string(), b.to_string(), a.to_string()]);
    let summaries: Vec<&str> = all.iter().map(|x| x.summary.as_str()).collect();
    assert_eq!(summaries, vec!["C", "B", "A"]);
    let page = list_commits(&s.repo, None, 1, 1).unwrap();
    assert_eq!(page.len(), 1);
    assert_eq!(page[0].hash, b.to_string());
    assert_eq!(page[0].short_hash, short(b));
    assert_eq!(page[0].parents, vec![a.to_string()]);
    assert!(!page[0].is_merge);
    assert!(list_commits(&s.repo, None, 0, 0).unwrap().is_empty());
    assert!(list_commits(&s.repo, None, 5, 3).unwrap().is_empty());
    assert_eq!(list_commits(&s.repo, Some("main"), 2, 0).unwrap().len(), 2);
    assert!(list_commits(&s.repo, Some("nowhere"), 10, 0).unwrap().is_empty());
}

#[test]
fn created_branch_is_listed_at_head_and_not_current() {
    let s = scratch();
    let a = commit(&s, "f.txt", "1\n", "A", 1000);
    create_branch(&s.repo, "topic", false).unwrap();
    let branches = list_branches(&s.repo).unwrap();
    let topic = branches.iter().find(|b| b.name == "topic").unwrap();
    assert_eq!(topic.commit_hash, Some(short(a)));
    assert!(!topic.is_current);
    assert!(!topic.is_remote);
    assert_eq!(get_current_branch(&s.repo).unwrap(), "main");
    assert_eq!(branches[0].name, "main");
    assert!(branches[0].is_current);
    let e = create_branch(&s.repo, "topic", false).unwrap_err();
    assert_eq!(e.code, "BRANCH_EXISTS");
    assert_eq!(e.details.as_deref(), Some("topic"));
}

#[test]
fn branches_are_listed_current_first_then_by_name() {
    let s = scratch();
    commit(&s, "f.txt", "1\n", "A", 1000);
    for name in ["zeta", "alpha", "beta"] {
        create_branch(&s.repo, name, false).unwrap();
    }
    create_branch(&s.repo, "midway", true).unwrap();
    let names: Vec<String> = list_branches(&s.repo).unwrap().into_iter().map(|b| b.name).collect();
    assert_eq!(names, vec!["midway", "alpha", "beta", "main", "zeta"]);
    assert_eq!(get_current_branch(&s.repo).unwrap(), "midway");
}

#[test]
fn fast_forward_moves_the_branch_without_a_commit() {
    let s = scratch();
    commit(&s, "f.txt", "1\n", "A", 1000);
    create_branch(&s.repo, "feature", true).unwrap();
    let d = commit(&s, "f.txt", "2\n", "D", 2000);
    checkout_branch(&s.repo, "main").unwrap();
    assert_eq!(read(&s, "f.txt"), "1\n");
    let outcome = merge_branch(&s.repo, "feature").unwrap();
    assert_eq!(outcome, "fast-forward");
    assert_eq!(head_id(&s), d);
    assert_eq!(get_current_branch(&s.repo).unwrap(), "main");
    assert_eq!(read(&s, "f.txt"), "2\n");
    assert_eq!(list_commits(&s.repo, None, 100, 0).unwrap().len(), 2);
}

#[test]
fn diverged_branches_get_a_merge_commit() {
    let s = scratch();
    commit(&s, "base.txt", "base\n", "A", 1000);
    create_branch(&s.repo, "feature", true).unwrap();
    let d = commit(&s, "feature.txt", "feature\n", "D", 2000);
    checkout_branch(&s.repo, "main").unwrap();
    let e = commit(&s, "main.txt", "main\n", "E", 3000);
    let outcome = merge_branch(&s.repo, "feature").unwrap();
    assert_eq!(outcome.len(), 7);
    let tip = s.repo.head().unwrap().peel_to_commit().unwrap();
    assert_eq!(short(tip.id()), outcome);
    assert_eq!(tip.message(), Some("Merge branch 'feature'"));
    let parents: Vec<git2::Oid> = tip.parent_ids().collect();
    assert_eq!(parents, vec![e, d]);
    let listed = list_commits(&s.repo, None, 1, 0).unwrap();
    assert!(listed[0].is_merge);
    assert_eq!(listed[0].parents, vec![e.to_string(), d.to_string()]);
}

#[test]
fn conflicting_merge_reports_a_conflict() {
    let s = scratch();
    commit(&s, "f.txt", "base\n", "A", 1000);
    create_branch(&s.repo, "feature", true).unwrap();
    commit(&s, "f.txt", "theirs\n", "D", 2000);
    checkout_branch(&s.repo, "main").unwrap();
    let e = commit(&s, "f.txt", "ours\n", "E", 3000);
    let failure = merge_branch(&s.repo, "feature").unwrap_err();
    assert_eq!(failure.code, "MERGE_CONFLICT");
    assert_eq!(head_id(&s), e);
    let index = s.repo.index().unwrap();
    let incoming = index.get_path(std::path::Path::new("f.txt"), 3).unwrap();
    let blob = s.repo.find_blob(incoming.id).unwrap();
    assert_eq!(blob.content(), b"theirs\n");
}

#[test]
fn merging_an_unknown_branch_is_a_store_failure() {
    let s = scratch();
    commit(&s, "f.txt", "1\n", "A", 1000);
    let e = merge_branch(&s.repo, "ghost").unwrap_err();
    assert_eq!(e.code, "GIT_ERROR");
}

#[test]
fn unrelated_branch_needs_force_to_be_deleted() {
    let s = scratch();
    commit(&s, "f.txt", "1\n", "A", 1000);
    let tree = s.repo.head().unwrap().peel_to_tree().unwrap();
    let signature = s.repo.signature().unwrap();
    let root = s.repo.commit(None, &signature, &signature, "unrelated root", &tree, &[]).unwrap();
    s.repo.branch("orphan", &s.repo.find_commit(root).unwrap(), false).unwrap();
    let e = delete_branch(&s.repo, "orphan", false).unwrap_err();
    assert_eq!(e.code, "BRANCH_NOT_MERGED");
    assert_eq!(e.message, "Branch não foi merged");
    assert_eq!(e.details.as_deref(), Some("Use force delete para deletar mesmo assim"));
    assert!(list_branches(&s.repo).unwrap().iter().any(|b| b.name == "orphan"));
    delete_branch(&s.repo, "orphan", true).unwrap();
    assert!(!list_branches(&s.repo).unwrap().iter().any(|b| b.name == "orphan"));
}

#[test]
fn branch_that_shares_history_is_deleted_without_force() {
    let s = scratch();
    commit(&s, "f.txt", "1\n", "A", 1000);
    create_branch(&s.repo, "feature", true).unwrap();
    commit(&s, "f.txt", "2\n", "D", 2000);
    checkout_branch(&s.repo, "main").unwrap();
    delete_branch(&s.repo, "feature", false).unwrap();
    assert!(!list_branches(&s.repo).unwrap().iter().any(|b| b.name == "feature"));
}

#[test]
fn current_branch_is_never_deleted() {
    let s = scratch();
    commit(&s, "f.txt", "1\n", "A", 1000);
    for force in [false, true] {
        let e = delete_branch(&s.repo, "main", force).unwrap_err();
        assert_eq!(e.code, "CANNOT_DELETE_CURRENT");
    }
    assert_eq!(delete_branch(&s.repo, "ghost", true).unwrap_err().code, "GIT_ERROR");
}

#[test]
fn checkout_overwrites_local_changes() {
    let s = scratch();
    commit(&s, "f.txt", "1\n", "A", 1000);
    create_branch(&s.repo, "other", false).unwrap();
    write(&s, "f.txt", "dirty\n");
    checkout_branch(&s.repo, "other").unwrap();
    assert_eq!(get_current_branch(&s.repo).unwrap(), "other");
    assert_eq!(read(&s, "f.txt"), "1\n");
    let e = checkout_branch(&s.repo, "ghost").unwrap_err();
    assert_eq!(e.code, "BRANCH_NOT_FOUND");
    assert_eq!(e.details.as_deref(), Some("ghost"));
}

#[test]
fn remote_tracking_branch_is_checked_out_as_local_branch() {
    let s = scratch();
    let a = commit(&s, "f.txt", "1\n", "A", 1000);
    s.repo.reference("refs/remotes/origin/topic", a, true, "test").unwrap();
    s.repo.reference("refs/remotes/origin/HEAD", a, true, "test").unwrap();
    let listed = list_branches(&s.repo).unwrap();
    let names: Vec<&str> = listed.iter().map(|b| b.name.as_str()).collect();
    assert_eq!(names, vec!["main", "origin/topic"]);
    assert!(listed[1].is_remote);
    assert!(!listed[1].is_current);
    assert!(listed[1].upstream.is_none());
    checkout_branch(&s.repo, "origin/topic").unwrap();
    assert_eq!(get_current_branch(&s.repo).unwrap(), "topic");
    assert!(s.repo.find_branch("topic", git2::BranchType::Local).is_ok());
    checkout_branch(&s.repo, "main").unwrap();
    checkout_branch(&s.repo, "origin/topic").unwrap();
    assert_eq!(get_current_branch(&s.repo).unwrap(), "topic");
}

#[test]
fn rename_moves_the_branch() {
    let s = scratch();
    commit(&s, "f.txt", "1\n", "A", 1000);
    create_branch(&s.repo, "old", false).unwrap();
    create_branch(&s.repo, "taken", false).unwrap();
    rename_branch(&s.repo, "old", "new").unwrap();
    let names: Vec<String> = list_branches(&s.repo).unwrap().into_iter().map(|b| b.name).collect();
    assert_eq!(names, vec!["main", "new", "taken"]);
    assert_eq!(rename_branch(&s.repo, "new", "taken").unwrap_err().code, "GIT_ERROR");
    assert_eq!(rename_branch(&s.repo, "ghost", "x").unwrap_err().code, "GIT_ERROR");
}

#[test]
fn stash_create_then_pop_restores_the_working_tree() {
    let mut s = scratch();
    commit(&s, "f.txt", "committed\n", "C", 1000);
    assert!(list_stashes(&mut s.repo).unwrap().is_empty());
    write(&s, "f.txt", "changed\n");
    let id = create_stash(&mut s.repo, None, false, false).unwrap();
    assert_eq!(id.len(), 7);
    let entries = list_stashes(&mut s.repo).unwrap();
    assert_eq!(entries.len(), 1);
    assert_eq!(entries[0].index, 0);
    assert_eq!(entries[0].commit_hash, id);
    assert!(entries[0].message.starts_with("WIP on main: "));
    assert_eq!(entries[0].branch, None);
    assert!(is_clean(&s));
    assert_eq!(read(&s, "f.txt"), "committed\n");
    apply_stash(&mut s.repo, 0, true).unwrap();
    assert_eq!(read(&s, "f.txt"), "changed\n");
    assert!(list_stashes(&mut s.repo).unwrap().is_empty());
}

#[test]
fn stash_apply_keeps_the_entry() {
    let mut s = scratch();
    commit(&s, "f.txt", "committed\n", "C", 1000);
    write(&s, "f.txt", "changed\n");
    create_stash(&mut s.repo, None, false, false).unwrap();
    assert!(is_clean(&s));
    assert_eq!(read(&s, "f.txt"), "committed\n");
    apply_stash(&mut s.repo, 0, false).unwrap();
    assert_eq!(read(&s, "f.txt"), "changed\n");
    assert_eq!(list_stashes(&mut s.repo).unwrap().len(), 1);
}

#[test]
fn stash_entries_are_a_stack() {
    let mut s = scratch();
    commit(&s, "f.txt", "0\n", "C", 1000);
    for (content, message) in [("1\n", "first"), ("2\n", "second"), ("3\n", "third")] {
        write(&s, "f.txt", content);
        create_stash(&mut s.repo, Some(message), false, false).unwrap();
    }
    let entries = list_stashes(&mut s.repo).unwrap();
    let messages: Vec<&str> = entries.iter().map(|e| e.message.as_str()).collect();
    assert_eq!(messages, vec!["On main: third", "On main: second", "On main: first"]);
    let positions: Vec<usize> = entries.iter().map(|e| e.index).collect();
    assert_eq!(positions, vec![0, 1, 2]);
    for entry in &entries {
        assert_eq!(entry.branch.as_deref(), Some("main"));
        assert_eq!(entry.commit_hash.len(), 7);
    }
    drop_stash(&mut s.repo, 1).unwrap();
    let entries = list_stashes(&mut s.repo).unwrap();
    let messages: Vec<&str> = entries.iter().map(|e| e.message.as_str()).collect();
    assert_eq!(messages, vec!["On main: third", "On main: first"]);
    let positions: Vec<usize> = entries.iter().map(|e| e.index).collect();
    assert_eq!(positions, vec![0, 1]);
    assert_eq!(drop_stash(&mut s.repo, 5).unwrap_err().code, "GIT_ERROR");
    clear_stashes(&mut s.repo).unwrap();
    assert!(list_stashes(&mut s.repo).unwrap().is_empty());
    clear_stashes(&mut s.repo).unwrap();
}

#[test]
fn stash_takes_untracked_files_only_when_asked() {
    let mut s = scratch();
    commit(&s, "f.txt", "0\n", "C", 1000);
    write(&s, "f.txt", "1\n");
    write(&s, "new.txt", "new\n");
    create_stash(&mut s.repo, Some("tracked only"), false, false).unwrap();
    assert!(s.dir.path().join("new.txt").exists());
    write(&s, "f.txt", "2\n");
    create_stash(&mut s.repo, Some("everything"), true, false).unwrap();
    assert!(!s.dir.path().join("new.txt").exists());
    assert!(is_clean(&s));
    assert_eq!(create_stash(&mut s.repo, None, false, false).unwrap_err().code, "GIT_ERROR");
}

#[test]
fn branch_that_points_at_no_commit_cannot_be_checked_out() {
    let s = scratch();
    commit(&s, "f.txt", "1\n", "A", 1000);
    let blob = s.repo.blob(b"not a commit").unwrap();
    let made = s.repo.reference("refs/heads/odd", blob, true, "test").is_ok();
    let e = checkout_branch(&s.repo, "odd").unwrap_err();
    if made {
        assert_eq!(e.code, "CHECKOUT_ERROR");
        assert_eq!(e.message, "Erro ao obter commit da branch");
        assert!(e.details.is_some());
        assert_eq!(get_current_branch(&s.repo).unwrap(), "main");
    } else {
        assert_eq!(e.code, "BRANCH_NOT_FOUND");
    }
}
