use git_gui::commit::cherry_pick;
use git_gui::commit::create_commit;
use git_gui::commit::discard_changes;
use git_gui::commit::get_commit;
use git_gui::commit::reset_to_commit;
use git_gui::commit::revert_commit;
use git_gui::commit::stage_all;
use git_gui::commit::stage_files;
use git_gui::commit::unstage_all;
use git_gui::commit::unstage_files;
use git_gui::conflict::abort_merge;
use git_gui::conflict::mark_resolved;
use git_gui::conflict::workdir_file;
use git_gui::diff::get_commit_diff;
use git_gui::diff::get_file_blame;
use git_gui::diff::get_file_diff;
use git_gui::diff::get_staged_diff;
use git_gui::diff::get_working_diff;
use git_gui::diff::needs_worktree_text;
use git_gui::diff::DiffInfo;
use git_gui::diff::LineType;
use git_gui::status::get_status;
use git_gui::status::FileStatusType;

struct Scratch {
    dir: tempfile::TempDir,
    repo: git2::Repository,
}

fn scratch() -> Scratch {
    let dir = tempfile::tempdir().unwrap();
    let mut options = git2::RepositoryInitOptions::new();
    options.initial_head("main");
    let repo = git2::Repository::init_opts(dir.path(), &options).unwrap();
    {
        let mut config = repo.config().unwrap();
        config.set_str("user.name", "Tester").unwrap();
        config.set_str("user.email", "tester@example.com").unwrap();
    }
    Scratch { dir, repo }
}

fn root(s: &Scratch) -> String {
    s.dir.path().to_string_lossy().to_string()
}

fn write_bytes(s: &Scratch, name: &str, content: &[u8]) {
    let mut file = tempfile::NamedTempFile::new_in(s.dir.path()).unwrap();
    std::io::Write::write_all(&mut file, content).unwrap();
    file.persist(s.dir.path().join(name)).unwrap();
}

fn write(s: &Scratch, name: &str, content: &str) {
    write_bytes(s, name, content.as_bytes());
}

fn read(s: &Scratch, name: &str) -> String {
    let id = s.repo.blob_path(&s.dir.path().join(name)).unwrap();
    let blob = s.repo.find_blob(id).unwrap();
    String::from_utf8(blob.content().to_vec()).unwrap()
}

fn commit(s: &Scratch, name: &str, content: &str, message: &str, seconds: i64) -> git2::Oid {
    write(s, name, content);
    let mut index = s.repo.index().unwrap();
    index.add_path(std::path::Path::new(name)).unwrap();
    index.write().unwrap();
    let tree = s.repo.find_tree(index.write_tree().unwrap()).unwrap();
    let signature =
        git2::Signature::new("Tester", "tester@example.com", &git2::Time::new(seconds, 0)).unwrap();
    let parents: Vec<git2::Commit> = match s.repo.head() {
        Ok(head) => vec![head.peel_to_commit().unwrap()],
        Err(_) => Vec::new(),
    };
    let refs: Vec<&git2::Commit> = parents.iter().collect();
    s.repo.commit(Some("HEAD"), &signature, &signature, message, &tree, &refs).unwrap()
}

fn short(id: git2::Oid) -> String {
    id.to_string()[..7].to_string()
}

fn head_id(s: &Scratch) -> git2::Oid {
    s.repo.head().unwrap().peel_to_commit().unwrap().id()
}

fn names(list: &[String]) -> Vec<String> {
    list.to_vec()
}

fn counts_agree(delta: &DiffInfo) {
    let lines = || delta.hunks.iter().flat_map(|h| h.lines.iter());
    assert_eq!(delta.additions, lines().filter(|l| l.line_type == LineType::Addition).count());
    assert_eq!(delta.deletions, lines().filter(|l| l.line_type == LineType::Deletion).count());
    if delta.is_binary {
        assert!(delta.hunks.is_empty());
    }
}

#[test]
fn first_commit_has_no_parent() {
    let s = scratch();
    write(&s, "f.txt", "1\n");
    stage_files(&s.repo, &names(&["f.txt".to_string()]), &root(&s)).unwrap();
    let id = create_commit(&s.repo, "first\n\nwith a body\n", false).unwrap();
    assert_eq!(id, short(head_id(&s)));
    let info = get_commit(&s.repo, &head_id(&s).to_string()).unwrap();
    assert_eq!(info.short_hash, id);
    assert_eq!(info.message, "first\n\nwith a body\n");
    assert_eq!(info.summary, "first");
    assert_eq!(info.body.as_deref(), Some("with a body"));
    assert_eq!(info.author_name, "Tester");
    assert_eq!(info.author_email, "tester@example.com");
    assert_eq!(info.committer_name, "Tester");
    assert!(info.parents.is_empty());
    assert!(!info.is_merge);
}

#[test]
fn second_commit_has_the_first_as_parent() {
    let s = scratch();
    let a = commit(&s, "f.txt", "1\n", "A", 1000);
    write(&s, "f.txt", "2\n");
    stage_all(&s.repo).unwrap();
    let id = create_commit(&s.repo, "B", false).unwrap();
    assert_eq!(id, short(head_id(&s)));
    assert_eq!(get_commit(&s.repo, &id).unwrap_err().code, "COMMIT_NOT_FOUND");
    let info = get_commit(&s.repo, &head_id(&s).to_string()).unwrap();
    assert_eq!(info.hash, head_id(&s).to_string());
    assert_eq!(info.parents, vec![a.to_string()]);
    assert_eq!(info.body, None);
    assert_eq!(info.summary, "B");
}

#[test]
fn get_commit_rejects_what_is_no_commit() {
    let s = scratch();
    commit(&s, "f.txt", "1\n", "A", 1000);
    for hash in ["", "xyz", "0123456789012345678901234567890123456789a", "0000000000000000000000000000000000000000"] {
        let e = get_commit(&s.repo, hash).unwrap_err();
        assert_eq!(e.code, "COMMIT_NOT_FOUND");
        assert_eq!(e.message, "Commit não encontrado");
        assert_eq!(e.details.as_deref(), Some(hash));
    }
}

#[test]
fn staging_and_unstaging_paths() {
    let s = scratch();
    commit(&s, "tracked.txt", "1\n", "A", 1000);
    write(&s, "tracked.txt", "2\n");
    write(&s, "fresh.txt", "new\n");
    stage_files(
        &s.repo,
        &names(&["tracked.txt".to_string(), "fresh.txt".to_string()]),
        &root(&s),
    )
    .unwrap();
    let status = get_status(&s.repo).unwrap();
    let staged: Vec<(&str, FileStatusType)> =
        status.staged_files.iter().map(|f| (f.path.as_str(), f.status)).collect();
    assert!(staged.contains(&("tracked.txt", FileStatusType::Modified)));
    assert!(staged.contains(&("fresh.txt", FileStatusType::Added)));
    unstage_files(&s.repo, &names(&["tracked.txt".to_string(), "fresh.txt".to_string()])).unwrap();
    let status = get_status(&s.repo).unwrap();
    assert!(status.staged_files.iter().all(|f| f.path != "tracked.txt" && f.path != "fresh.txt"));
    assert!(status.unstaged_files.iter().any(|f| f.path == "tracked.txt"
        && f.status == FileStatusType::Modified));
    assert!(status.untracked_files.contains(&"fresh.txt".to_string()));
    assert_eq!(read(&s, "tracked.txt"), "2\n");
}

#[test]
fn staging_a_missing_path_stages_its_removal() {
    let s = scratch();
    commit(&s, "keep.txt", "1\n", "A", 1000);
    let sub = tempfile::Builder::new().prefix("sub").tempdir_in(s.dir.path()).unwrap();
    let sub_name = sub.path().file_name().unwrap().to_string_lossy().to_string();
    let rel = format!("{}/gone.txt", sub_name);
    let mut file = tempfile::NamedTempFile::new_in(sub.path()).unwrap();
    std::io::Write::write_all(&mut file, b"x\n").unwrap();
    file.persist(sub.path().join("gone.txt")).unwrap();
    stage_files(&s.repo, &names(&[rel.clone()]), &root(&s)).unwrap();
    create_commit(&s.repo, "B", false).unwrap();
    assert!(get_status(&s.repo).unwrap().staged_files.is_empty());
    sub.close().unwrap();
    assert!(!s.dir.path().join(&rel).exists());
    stage_files(&s.repo, &names(&[rel.clone()]), &root(&s)).unwrap();
    let status = get_status(&s.repo).unwrap();
    let staged: Vec<(&str, FileStatusType)> =
        status.staged_files.iter().map(|f| (f.path.as_str(), f.status)).collect();
    assert_eq!(staged, vec![(rel.as_str(), FileStatusType::Deleted)]);
}

#[test]
fn stage_all_stages_every_change() {
    let s = scratch();
    commit(&s, "a.txt", "1\n", "A", 1000);
    write(&s, "a.txt", "2\n");
    write(&s, "b.txt", "b\n");
    stage_all(&s.repo).unwrap();
    let status = get_status(&s.repo).unwrap();
    let staged: Vec<(&str, FileStatusType)> =
        status.staged_files.iter().map(|f| (f.path.as_str(), f.status)).collect();
    assert_eq!(staged, vec![("a.txt", FileStatusType::Modified), ("b.txt", FileStatusType::Added)]);
    assert!(status.unstaged_files.is_empty());
    assert!(status.untracked_files.is_empty());
}

#[test]
fn unstage_all_empties_the_staged_list() {
    let s = scratch();
    assert_eq!(unstage_all(&s.repo).unwrap_err().code, "GIT_ERROR");
    commit(&s, "a.txt", "1\n", "A", 1000);
    write(&s, "a.txt", "2\n");
    write(&s, "b.txt", "b\n");
    stage_all(&s.repo).unwrap();
    assert_eq!(get_status(&s.repo).unwrap().staged_files.len(), 2);
    unstage_all(&s.repo).unwrap();
    let status = get_status(&s.repo).unwrap();
    assert!(status.staged_files.is_empty());
    assert_eq!(status.unstaged_files.len(), 1);
    assert_eq!(status.untracked_files, vec!["b.txt".to_string()]);
    assert_eq!(read(&s, "a.txt"), "2\n");
}

#[test]
fn discard_restores_the_listed_paths_only() {
    let s = scratch();
    commit(&s, "a.txt", "a1\n", "A", 1000);
    commit(&s, "b.txt", "b1\n", "B", 2000);
    write(&s, "a.txt", "a2\n");
    write(&s, "b.txt", "b2\n");
    discard_changes(&s.repo, &names(&["a.txt".to_string()])).unwrap();
    assert_eq!(read(&s, "a.txt"), "a1\n");
    assert_eq!(read(&s, "b.txt"), "b2\n");
    let e = discard_changes(&s.repo, &names(&["b.txt".to_string(), "bad\0path".to_string()])).unwrap_err();
    assert_eq!(e.code, "INTERNAL_ERROR");
    assert_eq!(read(&s, "b.txt"), "b2\n");
}

#[test]
fn status_sorts_paths_into_lists() {
    let s = scratch();
    commit(&s, "modified.txt", "1\n", "A", 1000);
    commit(&s, "staged.txt", "1\n", "B", 2000);
    write(&s, "modified.txt", "2\n");
    write(&s, "staged.txt", "2\n");
    write(&s, "untracked.txt", "u\n");
    stage_files(&s.repo, &names(&["staged.txt".to_string()]), &root(&s)).unwrap();
    let status = get_status(&s.repo).unwrap();
    assert_eq!(status.current_branch, "main");
    assert_eq!(status.head_commit, Some(short(head_id(&s))));
    let staged: Vec<(&str, FileStatusType, bool)> =
        status.staged_files.iter().map(|f| (f.path.as_str(), f.status, f.is_binary)).collect();
    assert_eq!(staged, vec![("staged.txt", FileStatusType::Modified, false)]);
    let unstaged: Vec<(&str, FileStatusType, bool)> =
        status.unstaged_files.iter().map(|f| (f.path.as_str(), f.status, f.is_binary)).collect();
    assert_eq!(unstaged, vec![("modified.txt", FileStatusType::Modified, false)]);
    assert_eq!(status.untracked_files, vec!["untracked.txt".to_string()]);
    assert!(status.conflicted_files.is_empty());
    assert_eq!((status.ahead, status.behind), (0, 0));
    assert!(!status.is_merging && !status.is_rebasing && !status.is_cherry_picking);
}

#[test]
fn status_of_a_fresh_repository() {
    let s = scratch();
    let status = get_status(&s.repo).unwrap();
    assert_eq!(status.current_branch, "HEAD");
    assert_eq!(status.head_commit, None);
    assert!(status.staged_files.is_empty());
}

#[test]
fn status_counts_ahead_and_behind() {
    let s = scratch();
    let a = commit(&s, "f.txt", "1\n", "A", 1000);
    s.repo.remote("origin", "https://example.invalid/repo.git").unwrap();
    s.repo.reference("refs/remotes/origin/main", a, true, "test").unwrap();
    let mut local = s.repo.find_branch("main", git2::BranchType::Local).unwrap();
    local.set_upstream(Some("origin/main")).unwrap();
    commit(&s, "f.txt", "2\n", "B", 2000);
    commit(&s, "f.txt", "3\n", "C", 3000);
    let status = get_status(&s.repo).unwrap();
    assert_eq!((status.ahead, status.behind), (2, 0));
}

#[test]
fn working_diff_counts_lines() {
    let s = scratch();
    commit(&s, "f.txt", "one\ntwo\nthree\n", "A", 1000);
    write(&s, "f.txt", "one\nTWO\nthree\nfour\n");
    write(&s, "new.txt", "fresh\n");
    let deltas = get_working_diff(&s.repo).unwrap();
    let paths: Vec<&str> = deltas.iter().map(|d| d.path.as_str()).collect();
    assert_eq!(paths, vec!["f.txt", "new.txt"]);
    let f = &deltas[0];
    assert_eq!(f.status, "modified");
    assert_eq!(f.old_path.as_deref(), Some("f.txt"));
    assert_eq!((f.additions, f.deletions), (2, 1));
    assert_eq!(f.hunks.len(), 1);
    assert_eq!(f.hunks[0].header, "@@ -1,3 +1,4 @@");
    let shown: Vec<(char, &str)> = f.hunks[0].lines.iter().map(|l| (l.origin, l.content.as_str())).collect();
    assert_eq!(shown, vec![(' ', "one"), ('-', "two"), ('+', "TWO"), (' ', "three"), ('+', "four")]);
    assert_eq!(f.hunks[0].lines[1].old_line, Some(2));
    assert_eq!(f.hunks[0].lines[1].new_line, None);
    assert_eq!(f.hunks[0].lines[2].new_line, Some(2));
    assert_eq!(deltas[1].status, "untracked");
    for delta in &deltas {
        counts_agree(delta);
    }
}

#[test]
fn staged_diff_sees_the_index_only() {
    let s = scratch();
    commit(&s, "f.txt", "one\n", "A", 1000);
    write(&s, "f.txt", "two\n");
    assert!(get_staged_diff(&s.repo).unwrap().is_empty());
    stage_all(&s.repo).unwrap();
    write(&s, "f.txt", "three\n");
    let deltas = get_staged_diff(&s.repo).unwrap();
    assert_eq!(deltas.len(), 1);
    assert_eq!((deltas[0].additions, deltas[0].deletions), (1, 1));
    assert_eq!(deltas[0].hunks[0].lines[1].content, "two");
    counts_agree(&deltas[0]);
}

#[test]
fn commit_diff_compares_with_the_first_parent() {
    let s = scratch();
    let a = commit(&s, "f.txt", "one\n", "A", 1000);
    let b = commit(&s, "g.txt", "g1\ng2\n", "B", 2000);
    let first = get_commit_diff(&s.repo, &a.to_string()).unwrap();
    assert_eq!(first.len(), 1);
    assert_eq!(first[0].path, "f.txt");
    assert_eq!(first[0].status, "added");
    assert_eq!((first[0].additions, first[0].deletions), (1, 0));
    let second = get_commit_diff(&s.repo, &b.to_string()).unwrap();
    assert_eq!(second.len(), 1);
    assert_eq!(second[0].path, "g.txt");
    assert_eq!((second[0].additions, second[0].deletions), (2, 0));
    assert_eq!(get_commit_diff(&s.repo, "not a hash").unwrap_err().code, "COMMIT_NOT_FOUND");
    assert_eq!(
        get_commit_diff(&s.repo, "0000000000000000000000000000000000000000").unwrap_err().code,
        "GIT_ERROR"
    );
}

#[test]
fn binary_files_have_no_hunks() {
    let s = scratch();
    commit(&s, "f.txt", "one\n", "A", 1000);
    write_bytes(&s, "blob.bin", &[0, 1, 2, 0, 255, 0, 7]);
    stage_all(&s.repo).unwrap();
    let deltas = get_staged_diff(&s.repo).unwrap();
    assert_eq!(deltas.len(), 1);
    assert_eq!(deltas[0].path, "blob.bin");
    assert_eq!(deltas[0].status, "added");
    assert!(deltas[0].hunks.is_empty());
    assert_eq!((deltas[0].additions, deltas[0].deletions), (0, 0));
    counts_agree(&deltas[0]);
}

#[test]
fn file_diff_is_scoped_to_one_path() {
    let s = scratch();
    commit(&s, "a.txt", "a\n", "A", 1000);
    commit(&s, "b.txt", "b\n", "B", 2000);
    write(&s, "a.txt", "a\nmore\n");
    write(&s, "b.txt", "changed\n");
    write(&s, "c.txt", "new\n");
    assert!(!needs_worktree_text(&s.repo, "a.txt", false).unwrap());
    assert!(needs_worktree_text(&s.repo, "c.txt", false).unwrap());
    assert!(!needs_worktree_text(&s.repo, "c.txt", true).unwrap());
    let delta = get_file_diff(&s.repo, "a.txt", false).unwrap();
    assert_eq!(delta.path, "a.txt");
    assert_eq!((delta.additions, delta.deletions), (1, 0));
    let e = get_file_diff(&s.repo, "a.txt", true).unwrap_err();
    assert_eq!(e.code, "FILE_NOT_IN_DIFF");
    assert_eq!(e.details.as_deref(), Some("a.txt"));
    stage_files(&s.repo, &names(&["b.txt".to_string()]), &root(&s)).unwrap();
    let delta = get_file_diff(&s.repo, "b.txt", true).unwrap();
    assert_eq!((delta.additions, delta.deletions), (1, 1));
    assert_eq!(get_file_diff(&s.repo, "b.txt", false).unwrap_err().code, "FILE_NOT_IN_DIFF");
    for staged in [false, true] {
        let e = get_file_diff(&s.repo, "a\0b", staged).unwrap_err();
        assert_eq!(e.code, "INTERNAL_ERROR");
        assert_eq!(e.message, "Path holds a NUL character");
    }
}

#[test]
fn blame_attributes_each_line() {
    let s = scratch();
    let a = commit(&s, "f.txt", "one\ntwo\nthree\n", "A", 1000);
    let b = commit(&s, "f.txt", "one\nTWO\nthree\nfour\n", "B", 2000);
    let blame = get_file_blame(&s.repo, "f.txt").unwrap();
    let lines: Vec<u32> = blame.iter().map(|l| l.line).collect();
    assert_eq!(lines, vec![1, 2, 3, 4]);
    let commits: Vec<String> = blame.iter().map(|l| l.commit_hash.clone()).collect();
    assert_eq!(commits, vec![short(a), short(b), short(a), short(b)]);
    let dates: Vec<i64> = blame.iter().map(|l| l.date).collect();
    assert_eq!(dates, vec![1000, 2000, 1000, 2000]);
    assert!(blame.iter().all(|l| l.author == "Tester"));
    assert_eq!(get_file_blame(&s.repo, "missing.txt").unwrap_err().code, "GIT_ERROR");
}

#[test]
fn cherry_pick_applies_a_commit_from_elsewhere() {
    let s = scratch();
    let a = commit(&s, "f.txt", "1\n", "A", 1000);
    s.repo.branch("side", &s.repo.find_commit(a).unwrap(), false).unwrap();
    s.repo.set_head("refs/heads/side").unwrap();
    let picked = commit(&s, "side.txt", "side\n", "side work", 2000);
    s.repo.set_head("refs/heads/main").unwrap();
    s.repo.checkout_head(Some(git2::build::CheckoutBuilder::new().force())).unwrap();
    let b = commit(&s, "main.txt", "main\n", "B", 3000);
    let id = cherry_pick(&s.repo, &picked.to_string()).unwrap();
    let tip = s.repo.head().unwrap().peel_to_commit().unwrap();
    assert_eq!(short(tip.id()), id);
    assert_eq!(tip.message(), Some("side work"));
    assert_eq!(tip.parent_ids().collect::<Vec<_>>(), vec![b]);
    assert_eq!(read(&s, "side.txt"), "side\n");
    assert_eq!(s.repo.state(), git2::RepositoryState::Clean);
    assert_eq!(cherry_pick(&s.repo, "zz").unwrap_err().code, "COMMIT_NOT_FOUND");
}

#[test]
fn cherry_pick_with_conflict_reports_it() {
    let s = scratch();
    let a = commit(&s, "f.txt", "base\n", "A", 1000);
    s.repo.branch("side", &s.repo.find_commit(a).unwrap(), false).unwrap();
    s.repo.set_head("refs/heads/side").unwrap();
    let picked = commit(&s, "f.txt", "side\n", "side work", 2000);
    s.repo.set_head("refs/heads/main").unwrap();
    s.repo.checkout_head(Some(git2::build::CheckoutBuilder::new().force())).unwrap();
    commit(&s, "f.txt", "main\n", "B", 3000);
    assert_eq!(cherry_pick(&s.repo, &picked.to_string()).unwrap_err().code, "MERGE_CONFLICT");
}

#[test]
fn revert_undoes_a_commit() {
    let s = scratch();
    commit(&s, "f.txt", "1\n", "A", 1000);
    let b = commit(&s, "f.txt", "2\n", "B summary", 2000);
    let hash = b.to_string();
    let id = revert_commit(&s.repo, &hash).unwrap();
    let tip = s.repo.head().unwrap().peel_to_commit().unwrap();
    assert_eq!(short(tip.id()), id);
    assert_eq!(
        tip.message().unwrap(),
        format!("Revert \"B summary\"\n\nThis reverts commit {}.", hash)
    );
    assert_eq!(read(&s, "f.txt"), "1\n");
    assert_eq!(revert_commit(&s.repo, "").unwrap_err().code, "COMMIT_NOT_FOUND");
}

#[test]
fn reset_moves_the_branch_as_far_as_the_mode_says() {
    let s = scratch();
    let a = commit(&s, "f.txt", "1\n", "A", 1000);
    let b = commit(&s, "f.txt", "2\n", "B", 2000);
    reset_to_commit(&s.repo, &a.to_string(), "soft").unwrap();
    assert_eq!(head_id(&s), a);
    assert_eq!(read(&s, "f.txt"), "2\n");
    assert_eq!(get_status(&s.repo).unwrap().staged_files.len(), 1);
    reset_to_commit(&s.repo, &b.to_string(), "hard").unwrap();
    assert_eq!(head_id(&s), b);
    reset_to_commit(&s.repo, &a.to_string(), "whatever").unwrap();
    assert_eq!(head_id(&s), a);
    assert_eq!(read(&s, "f.txt"), "2\n");
    let status = get_status(&s.repo).unwrap();
    assert!(status.staged_files.is_empty());
    assert_eq!(status.unstaged_files.len(), 1);
    reset_to_commit(&s.repo, &a.to_string(), "hard").unwrap();
    assert_eq!(read(&s, "f.txt"), "1\n");
    assert_eq!(reset_to_commit(&s.repo, "nope", "hard").unwrap_err().code, "COMMIT_NOT_FOUND");
}

#[test]
fn abort_merge_needs_a_merge_in_progress() {
    let s = scratch();
    let a = commit(&s, "f.txt", "base\n", "A", 1000);
    let e = abort_merge(&s.repo).unwrap_err();
    assert_eq!(e.code, "NOT_MERGING");
    assert_eq!(e.message, "Não há merge em andamento");
    s.repo.branch("side", &s.repo.find_commit(a).unwrap(), false).unwrap();
    s.repo.set_head("refs/heads/side").unwrap();
    let theirs = commit(&s, "f.txt", "side\n", "S", 2000);
    s.repo.set_head("refs/heads/main").unwrap();
    s.repo.checkout_head(Some(git2::build::CheckoutBuilder::new().force())).unwrap();
    let ours = commit(&s, "f.txt", "main\n", "M", 3000);
    let annotated = s.repo.find_annotated_commit(theirs).unwrap();
    s.repo.merge(&[&annotated], None, None).unwrap();
    assert_eq!(s.repo.state(), git2::RepositoryState::Merge);
    assert!(get_status(&s.repo).unwrap().is_merging);
    assert_eq!(get_status(&s.repo).unwrap().conflicted_files, vec!["f.txt".to_string()]);
    assert!(read(&s, "f.txt").contains("<<<<<<<"));
    abort_merge(&s.repo).unwrap();
    assert_eq!(s.repo.state(), git2::RepositoryState::Clean);
    assert_eq!(head_id(&s), ours);
    assert_eq!(read(&s, "f.txt"), "main\n");
}

#[test]
fn mark_resolved_stages_the_file() {
    let s = scratch();
    let a = commit(&s, "f.txt", "base\n", "A", 1000);
    s.repo.branch("side", &s.repo.find_commit(a).unwrap(), false).unwrap();
    s.repo.set_head("refs/heads/side").unwrap();
    let theirs = commit(&s, "f.txt", "side\n", "S", 2000);
    s.repo.set_head("refs/heads/main").unwrap();
    s.repo.checkout_head(Some(git2::build::CheckoutBuilder::new().force())).unwrap();
    commit(&s, "f.txt", "main\n", "M", 3000);
    let annotated = s.repo.find_annotated_commit(theirs).unwrap();
    s.repo.merge(&[&annotated], None, None).unwrap();
    write(&s, "f.txt", "resolved\n");
    mark_resolved(&s.repo, "f.txt").unwrap();
    let status = get_status(&s.repo).unwrap();
    assert!(status.conflicted_files.is_empty());
    assert_eq!(status.staged_files.len(), 1);
    assert_eq!(mark_resolved(&s.repo, "missing.txt").unwrap_err().code, "GIT_ERROR");
}

#[test]
fn workdir_file_lies_below_the_working_tree() {
    let s = scratch();
    let path = workdir_file(&s.repo, "sub/f.txt").unwrap();
    assert!(path.ends_with("sub/f.txt"));
    assert!(path.starts_with(s.repo.workdir().unwrap()));
    let bare_dir = tempfile::tempdir().unwrap();
    let bare = git2::Repository::init_bare(bare_dir.path()).unwrap();
    let e = workdir_file(&bare, "f.txt").unwrap_err();
    assert_eq!(e.code, "INTERNAL_ERROR");
    assert_eq!(e.message, "Bare repository");
}

#[test]
fn amend_replaces_the_tip() {
    let s = scratch();
    let a = commit(&s, "f.txt", "1\n", "A", 1000);
    commit(&s, "f.txt", "2\n", "B", 2000);
    write(&s, "f.txt", "3\n");
    stage_all(&s.repo).unwrap();
    let b = head_id(&s);
    let id = create_commit(&s.repo, "B again", true).unwrap();
    let tip = s.repo.head().unwrap().peel_to_commit().unwrap();
    assert_eq!(short(tip.id()), id);
    assert_ne!(tip.id(), b);
    assert_eq!(tip.parent_ids().collect::<Vec<_>>(), vec![a]);
    assert_eq!(tip.message(), Some("B again"));
    assert!(get_status(&s.repo).unwrap().staged_files.is_empty());
    assert_eq!(list_commits_len(&s), 2);
    assert!(s.repo.find_commit(b).is_ok());
}

fn list_commits_len(s: &Scratch) -> usize {
    git_gui::commit::list_commits(&s.repo, None, 100, 0).unwrap().len()
}

#[test]
fn amend_of_the_first_commit_keeps_it_without_parent() {
    let s = scratch();
    let a = commit(&s, "f.txt", "1\n", "A", 1000);
    write(&s, "f.txt", "2\n");
    stage_all(&s.repo).unwrap();
    create_commit(&s.repo, "A again", true).unwrap();
    let tip = s.repo.head().unwrap().peel_to_commit().unwrap();
    assert_ne!(tip.id(), a);
    assert_eq!(tip.parent_count(), 0);
    let fresh = scratch();
    assert_eq!(create_commit(&fresh.repo, "nothing to amend", true).unwrap_err().code, "GIT_ERROR");
}

#[test]
fn commit_without_identity_is_refused() {
    let dir = tempfile::tempdir().unwrap();
    let repo = git2::Repository::init(dir.path()).unwrap();
    let configured = repo.signature().is_ok();
    match create_commit(&repo, "message", false) {
        Ok(id) => {
            assert!(configured);
            assert_eq!(id.len(), 7);
        }
        Err(e) => {
            assert!(!configured);
            assert_eq!(e.code, "GIT_USER_NOT_CONFIGURED");
            assert_eq!(e.message, "Usuário Git não configurado");
            assert!(repo.head().is_err());
        }
    }
}
