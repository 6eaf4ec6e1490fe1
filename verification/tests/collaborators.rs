use git_gui::github::checkout_pull_request;
use git_gui::github::close_pull_request;
use git_gui::github::comment_pull_request;
use git_gui::github::create_pull_request;
use git_gui::github::created_number;
use git_gui::github::get_pull_request;
use git_gui::github::get_pull_request_comments;
use git_gui::github::get_pull_request_diff;
use git_gui::github::get_pull_request_files;
use git_gui::github::get_pull_request_reviews;
use git_gui::github::gh_outcome;
use git_gui::github::list_pull_requests;
use git_gui::github::merge_pull_request;
use git_gui::github::parse_comments;
use git_gui::github::parse_files;
use git_gui::github::parse_pull_request;
use git_gui::github::parse_pull_requests;
use git_gui::github::parse_reviews;
use git_gui::github::ready_pull_request;
use git_gui::github::reopen_pull_request;
use git_gui::github::review_pull_request;
use git_gui::remote::add_remote;
use git_gui::remote::agent_user;
use git_gui::remote::fetch_targets;
use git_gui::remote::finish_pull;
use git_gui::remote::list_remotes;
use git_gui::remote::pull_message;
use git_gui::remote::push_refspec;
use git_gui::remote::remove_remote;
use git_gui::remote::rename_remote;
use git_gui::remote::set_upstream;
use git_gui::remote::upstream_name;
use git_gui::repository::clone_repository;
use git_gui::repository::get_git_config;
use git_gui::repository::get_repo_info;
use git_gui::repository::init_repository;
use git_gui::repository::open_repository;
use git_gui::repository::set_git_config;

const LIST_FIELDS: &str = "number,title,body,state,author,headRefName,baseRefName,url,createdAt,updatedAt,isDraft,additions,deletions,changedFiles,reviewRequests,labels";
const VIEW_FIELDS: &str = "number,title,body,state,author,headRefName,baseRefName,url,createdAt,updatedAt,isDraft,mergeable,additions,deletions,changedFiles,reviewRequests,labels";

#[test]
fn requests_for_reading() {
    assert_eq!(
        list_pull_requests(Some("open"), 30),
        vec!["pr", "list", "--state", "open", "--limit", "30", "--json", LIST_FIELDS]
    );
    assert_eq!(
        list_pull_requests(None, 0),
        vec!["pr", "list", "--state", "all", "--limit", "0", "--json", LIST_FIELDS]
    );
    assert_eq!(get_pull_request(17), vec!["pr", "view", "17", "--json", VIEW_FIELDS]);
    assert_eq!(get_pull_request_reviews(3), vec!["pr", "view", "3", "--json", "reviews"]);
    assert_eq!(get_pull_request_comments(3), vec!["pr", "view", "3", "--json", "comments"]);
    assert_eq!(get_pull_request_files(3), vec!["pr", "view", "3", "--json", "files"]);
    assert_eq!(get_pull_request_diff(8), vec!["pr", "diff", "8"]);
}

#[test]
fn requests_for_changing() {
    assert_eq!(close_pull_request(5), vec!["pr", "close", "5"]);
    assert_eq!(reopen_pull_request(5), vec!["pr", "reopen", "5"]);
    assert_eq!(ready_pull_request(5), vec!["pr", "ready", "5"]);
    assert_eq!(checkout_pull_request(18446744073709551615), vec!["pr", "checkout", "18446744073709551615"]);
    assert_eq!(comment_pull_request(2, "looks good"), vec!["pr", "comment", "2", "--body", "looks good"]);
    assert_eq!(merge_pull_request(9, "squash", true), vec!["pr", "merge", "9", "--squash", "--delete-branch"]);
    assert_eq!(merge_pull_request(9, "rebase", false), vec!["pr", "merge", "9", "--rebase"]);
    assert_eq!(merge_pull_request(9, "merge", false), vec!["pr", "merge", "9", "--merge"]);
    assert_eq!(merge_pull_request(9, "anything", false), vec!["pr", "merge", "9", "--merge"]);
}

#[test]
fn create_request_adds_what_is_given() {
    assert_eq!(
        create_pull_request("Title", Some("Body"), "main", Some("topic"), true),
        vec!["pr", "create", "--title", "Title", "--base", "main", "--body", "Body", "--head", "topic", "--draft"]
    );
    assert_eq!(
        create_pull_request("T", None, "dev", None, false),
        vec!["pr", "create", "--title", "T", "--base", "dev"]
    );
}

#[test]
fn review_request_knows_three_actions() {
    assert_eq!(review_pull_request(4, "approve", None).unwrap(), vec!["pr", "review", "4", "--approve"]);
    assert_eq!(
        review_pull_request(4, "request-changes", Some("fix")).unwrap(),
        vec!["pr", "review", "4", "--request-changes", "--body", "fix"]
    );
    assert_eq!(review_pull_request(4, "comment", None).unwrap(), vec!["pr", "review", "4", "--comment"]);
    let e = review_pull_request(4, "reject", None).unwrap_err();
    assert_eq!(e.code, "INVALID_ACTION");
    assert_eq!(e.message, "Acao de review invalida");
}

#[test]
fn created_number_is_read_off_the_address() {
    assert_eq!(created_number("https://github.com/o/r/pull/123\n").unwrap(), 123);
    assert_eq!(created_number("  77  ").unwrap(), 77);
    for output in ["", "https://github.com/o/r/pull/", "https://github.com/o/r/pull/abc", "pull/0", "pull/-3"] {
        let e = created_number(output).unwrap_err();
        assert_eq!(e.code, "PR_CREATE_FAILED");
        assert_eq!(e.message, "Falha ao criar PR");
    }
}

#[test]
fn tool_failures() {
    let e = git_gui::github::gh_not_found();
    assert_eq!(e.code, "GH_NOT_FOUND");
    assert_eq!(e.message, "GitHub CLI (gh) nao encontrado");
    assert_eq!(e.details.as_deref(), Some("Instale em https://cli.github.com"));
    let e = git_gui::github::gh_launch_failed("denied");
    assert_eq!(e.code, "GH_COMMAND_FAILED");
    assert_eq!(e.message, "Falha ao executar GitHub CLI");
    assert_eq!(e.details.as_deref(), Some("denied"));
    let e = git_gui::stash::stash_launch_failed("no git");
    assert_eq!(e.code, "STASH_ERROR");
    assert_eq!(e.message, "Falha ao executar git stash");
    assert_eq!(e.details.as_deref(), Some("no git"));
    let e = git_gui::conflict::file_not_found("a.txt");
    assert_eq!((e.code.as_str(), e.message.as_str()), ("FILE_NOT_FOUND", "Arquivo não encontrado"));
    assert_eq!(e.details.as_deref(), Some("a.txt"));
    let e = git_gui::conflict::read_failed("r");
    assert_eq!((e.code.as_str(), e.message.as_str()), ("READ_ERROR", "Erro ao ler arquivo"));
    let e = git_gui::conflict::write_failed("w");
    assert_eq!((e.code.as_str(), e.message.as_str()), ("WRITE_ERROR", "Erro ao salvar arquivo"));
    assert_eq!(e.details.as_deref(), Some("w"));
}

#[test]
fn tool_outcomes() {
    assert_eq!(gh_outcome(true, "out\n".to_string(), "noise").unwrap(), "out\n");
    let e = gh_outcome(false, String::new(), "You are not logged into any hosts").unwrap_err();
    assert_eq!(e.code, "GH_NOT_AUTHENTICATED");
    assert_eq!(e.message, "Voce precisa fazer login no GitHub CLI");
    assert_eq!(e.details.as_deref(), Some("Execute 'gh auth login' no terminal"));
    let e = gh_outcome(false, String::new(), "run: gh auth login").unwrap_err();
    assert_eq!(e.code, "GH_NOT_AUTHENTICATED");
    let e = gh_outcome(false, "out".to_string(), "\n no such pr \n").unwrap_err();
    assert_eq!(e.code, "GH_COMMAND_FAILED");
    assert_eq!(e.message, "Comando gh falhou");
    assert_eq!(e.details.as_deref(), Some("no such pr"));
}

#[test]
fn pull_request_list_is_read_with_defaults() {
    let output = r#"[
        {"number": 7, "title": "Add x", "body": "text", "state": "OPEN",
         "author": {"login": "ada"}, "headRefName": "x", "baseRefName": "main",
         "url": "https://example.test/7", "createdAt": "c", "updatedAt": "u",
         "isDraft": true, "mergeable": "MERGEABLE", "additions": 10, "deletions": 2,
         "changedFiles": 3,
         "reviewRequests": [{"login": "bob"}, {"name": "team"}, {"login": "eve"}],
         "labels": [{"name": "bug"}, {"name": 5}, {"name": "ui"}]},
        {"number": -1, "title": 5, "author": "nobody", "isDraft": "yes", "additions": 1.5}
    ]"#;
    let found = parse_pull_requests(output).unwrap();
    assert_eq!(found.len(), 2);
    let pr = &found[0];
    assert_eq!(pr.number, 7);
    assert_eq!(pr.title, "Add x");
    assert_eq!(pr.body.as_deref(), Some("text"));
    assert_eq!(pr.state, "OPEN");
    assert_eq!(pr.author, "ada");
    assert_eq!(pr.head_branch, "x");
    assert_eq!(pr.base_branch, "main");
    assert_eq!(pr.url, "https://example.test/7");
    assert_eq!(pr.html_url, "https://example.test/7");
    assert_eq!(pr.created_at, "c");
    assert_eq!(pr.updated_at, "u");
    assert!(pr.draft);
    assert_eq!(pr.mergeable, None);
    assert_eq!((pr.additions, pr.deletions, pr.changed_files), (10, 2, 3));
    assert_eq!(pr.reviewers, vec!["bob", "eve"]);
    assert_eq!(pr.labels, vec!["bug", "ui"]);
    let blank = &found[1];
    assert_eq!(blank.number, 0);
    assert_eq!(blank.title, "");
    assert_eq!(blank.body, None);
    assert_eq!(blank.author, "");
    assert!(!blank.draft);
    assert_eq!(blank.additions, 0);
    assert!(blank.reviewers.is_empty());
    assert!(blank.labels.is_empty());
}

#[test]
fn blank_listings_hold_nothing() {
    for output in ["", "  \n", "[]", " [] \n"] {
        assert!(parse_pull_requests(output).unwrap().is_empty());
    }
    assert!(parse_pull_requests("[ ]").unwrap().is_empty());
    for output in ["{}", "[", "nonsense"] {
        let e = parse_pull_requests(output).unwrap_err();
        assert_eq!(e.code, "PARSE_ERROR");
        assert_eq!(e.message, "Erro ao parsear PRs");
        assert!(e.details.is_some());
    }
}

#[test]
fn single_pull_request_reads_mergeable() {
    let pr = parse_pull_request(r#"{"number": 3, "mergeable": "MERGEABLE", "url": "u"}"#).unwrap();
    assert_eq!(pr.number, 3);
    assert_eq!(pr.mergeable, Some(true));
    assert_eq!(pr.html_url, "u");
    let pr = parse_pull_request(r#"{"mergeable": "CONFLICTING"}"#).unwrap();
    assert_eq!(pr.mergeable, Some(false));
    let pr = parse_pull_request(r#"{"mergeable": null}"#).unwrap();
    assert_eq!(pr.mergeable, None);
    let pr = parse_pull_request("[1, 2]").unwrap();
    assert_eq!(pr.number, 0);
    assert_eq!(pr.title, "");
    let e = parse_pull_request("").unwrap_err();
    assert_eq!(e.code, "PARSE_ERROR");
    assert_eq!(e.message, "Erro ao parsear PR");
}

#[test]
fn reviews_comments_and_files_are_read() {
    let reviews = parse_reviews(
        r#"{"reviews": [{"id": 1, "author": {"login": "ada"}, "state": "APPROVED", "body": "ok", "submittedAt": "t"}, {}]}"#,
    )
    .unwrap();
    assert_eq!(reviews.len(), 2);
    assert_eq!(reviews[0].id, 1);
    assert_eq!(reviews[0].author, "ada");
    assert_eq!(reviews[0].state, "APPROVED");
    assert_eq!(reviews[0].body.as_deref(), Some("ok"));
    assert_eq!(reviews[0].submitted_at, "t");
    assert_eq!(reviews[1].id, 0);
    assert_eq!(reviews[1].body, None);
    assert!(parse_reviews("{}").unwrap().is_empty());
    assert!(parse_reviews(r#"{"reviews": "none"}"#).unwrap().is_empty());
    assert_eq!(parse_reviews("x").unwrap_err().message, "Erro ao parsear reviews");

    let comments = parse_comments(
        r#"{"comments": [{"id": 9, "author": {"login": "bob"}, "body": "hm", "path": "a.rs", "line": 12, "createdAt": "t"}, {"id": "x"}]}"#,
    )
    .unwrap();
    assert_eq!(comments.len(), 2);
    assert_eq!(comments[0].id, 9);
    assert_eq!(comments[0].author, "bob");
    assert_eq!(comments[0].body, "hm");
    assert_eq!(comments[0].path.as_deref(), Some("a.rs"));
    assert_eq!(comments[0].line, Some(12));
    assert_eq!(comments[0].created_at, "t");
    assert_eq!(comments[1].id, 0);
    assert_eq!(comments[1].path, None);
    assert_eq!(comments[1].line, None);
    assert_eq!(parse_comments("x").unwrap_err().message, "Erro ao parsear comments");

    let files = parse_files(
        r#"{"files": [{"path": "a.rs", "additions": 3, "deletions": 1}, {"path": "b.rs", "deletions": 4}]}"#,
    )
    .unwrap();
    assert_eq!(files.len(), 2);
    assert_eq!(files[0].filename, "a.rs");
    assert_eq!(files[0].status, "modified");
    assert_eq!((files[0].additions, files[0].deletions), (3, 1));
    assert_eq!(files[0].patch, None);
    assert_eq!(files[1].status, "unknown");
    assert_eq!((files[1].additions, files[1].deletions), (0, 4));
    assert_eq!(parse_files("x").unwrap_err().message, "Erro ao parsear files");
}

#[test]
fn remote_texts() {
    assert_eq!(agent_user(Some("alice")), "alice");
    assert_eq!(agent_user(None), "git");
    assert_eq!(push_refspec("main", false), "refs/heads/main:refs/heads/main");
    assert_eq!(push_refspec("topic/x", true), "+refs/heads/topic/x:refs/heads/topic/x");
    assert_eq!(upstream_name("origin", "main"), "origin/main");
    assert_eq!(pull_message("origin", "main"), "Merge remote-tracking branch 'origin/main'");
}

struct Scratch {
    dir: tempfile::TempDir,
    repo: git2::Repository,
}

fn scratch() -> Scratch {
    let dir = tempfile::tempdir().unwrap();
    let mut options = git2::RepositoryInitOptions::new();
    options.initial_head("main");
    let repo = git2::Repository::init_opts(dir.path(), &options).unwrap();
    {
        let mut config = repo.config().unwrap();
        config.set_str("user.name", "Tester").unwrap();
        config.set_str("user.email", "tester@example.com").unwrap();
    }
    Scratch { dir, repo }
}

fn commit(s: &Scratch, name: &str, content: &str, message: &str, seconds: i64) -> git2::Oid {
    let mut file = tempfile::NamedTempFile::new_in(s.dir.path()).unwrap();
    std::io::Write::write_all(&mut file, content.as_bytes()).unwrap();
    file.persist(s.dir.path().join(name)).unwrap();
    let mut index = s.repo.index().unwrap();
    index.add_path(std::path::Path::new(name)).unwrap();
    index.write().unwrap();
    let tree = s.repo.find_tree(index.write_tree().unwrap()).unwrap();
    let signature =
        git2::Signature::new("Tester", "tester@example.com", &git2::Time::new(seconds, 0)).unwrap();
    let parents: Vec<git2::Commit> = match s.repo.head() {
        Ok(head) => vec![head.peel_to_commit().unwrap()],
        Err(_) => Vec::new(),
    };
    let refs: Vec<&git2::Commit> = parents.iter().collect();
    s.repo.commit(Some("HEAD"), &signature, &signature, message, &tree, &refs).unwrap()
}

fn head_id(s: &Scratch) -> git2::Oid {
    s.repo.head().unwrap().peel_to_commit().unwrap().id()
}

fn path_text(s: &Scratch) -> String {
    s.dir.path().to_string_lossy().to_string()
}

#[test]
fn remotes_are_listed_with_both_addresses() {
    let s = scratch();
    assert!(list_remotes(&s.repo).unwrap().is_empty());
    add_remote(&s.repo, "origin", "https://example.invalid/a.git").unwrap();
    add_remote(&s.repo, "backup", "https://example.invalid/b.git").unwrap();
    s.repo.remote_set_pushurl("backup", Some("ssh://example.invalid/b.git")).unwrap();
    let mut listed: Vec<(String, String, String)> = list_remotes(&s.repo)
        .unwrap()
        .into_iter()
        .map(|r| (r.name, r.fetch_url, r.push_url))
        .collect();
    listed.sort();
    assert_eq!(
        listed,
        vec![
            (
                "backup".to_string(),
                "https://example.invalid/b.git".to_string(),
                "ssh://example.invalid/b.git".to_string()
            ),
            (
                "origin".to_string(),
                "https://example.invalid/a.git".to_string(),
                "https://example.invalid/a.git".to_string()
            ),
        ]
    );
    assert_eq!(add_remote(&s.repo, "origin", "https://example.invalid/c.git").unwrap_err().code, "GIT_ERROR");
    rename_remote(&s.repo, "backup", "mirror").unwrap();
    remove_remote(&s.repo, "origin").unwrap();
    let names: Vec<String> = list_remotes(&s.repo).unwrap().into_iter().map(|r| r.name).collect();
    assert_eq!(names, vec!["mirror"]);
    assert_eq!(remove_remote(&s.repo, "origin").unwrap_err().code, "GIT_ERROR");
    assert_eq!(rename_remote(&s.repo, "ghost", "x").unwrap_err().code, "GIT_ERROR");
}

#[test]
fn fetch_goes_to_the_named_remote_or_to_all() {
    let s = scratch();
    add_remote(&s.repo, "origin", "https://example.invalid/a.git").unwrap();
    add_remote(&s.repo, "backup", "https://example.invalid/b.git").unwrap();
    assert_eq!(fetch_targets(&s.repo, Some("anything")).unwrap(), vec!["anything"]);
    let mut all = fetch_targets(&s.repo, None).unwrap();
    all.sort();
    assert_eq!(all, vec!["backup", "origin"]);
}

#[test]
fn upstream_is_set_and_listed() {
    let s = scratch();
    let a = commit(&s, "f.txt", "1\n", "A", 1000);
    add_remote(&s.repo, "origin", "https://example.invalid/a.git").unwrap();
    s.repo.reference("refs/remotes/origin/main", a, true, "test").unwrap();
    set_upstream(&s.repo, "main", "origin", "main").unwrap();
    commit(&s, "f.txt", "2\n", "B", 2000);
    let listed = git_gui::branch::list_branches(&s.repo).unwrap();
    assert_eq!(listed[0].name, "main");
    assert_eq!(listed[0].upstream.as_deref(), Some("origin/main"));
    assert_eq!((listed[0].ahead, listed[0].behind), (Some(1), Some(0)));
    assert_eq!(listed[1].name, "origin/main");
    assert_eq!((listed[1].ahead, listed[1].behind), (None, None));
    assert_eq!(set_upstream(&s.repo, "ghost", "origin", "main").unwrap_err().code, "GIT_ERROR");
}

fn set_fetch_head(s: &Scratch, id: git2::Oid) {
    let line = format!("{}\t\tbranch 'main' of https://example.invalid/a.git\n", id);
    let mut file = tempfile::NamedTempFile::new_in(s.repo.path()).unwrap();
    std::io::Write::write_all(&mut file, line.as_bytes()).unwrap();
    file.persist(s.repo.path().join("FETCH_HEAD")).unwrap();
}

#[test]
fn pull_without_news_is_up_to_date() {
    let s = scratch();
    let a = commit(&s, "f.txt", "1\n", "A", 1000);
    assert_eq!(finish_pull(&s.repo, "origin", "main").unwrap_err().code, "GIT_ERROR");
    set_fetch_head(&s, a);
    assert_eq!(finish_pull(&s.repo, "origin", "main").unwrap(), "already-up-to-date");
    assert_eq!(head_id(&s), a);
}

#[test]
fn pull_fast_forwards_when_it_can() {
    let s = scratch();
    let a = commit(&s, "f.txt", "1\n", "A", 1000);
    let b = commit(&s, "f.txt", "2\n", "B", 2000);
    s.repo.reset(s.repo.find_commit(a).unwrap().as_object(), git2::ResetType::Hard, None).unwrap();
    set_fetch_head(&s, b);
    assert_eq!(finish_pull(&s.repo, "origin", "main").unwrap(), "fast-forward");
    assert_eq!(head_id(&s), b);
}

#[test]
fn pull_merges_diverged_histories() {
    let s = scratch();
    let a = commit(&s, "f.txt", "1\n", "A", 1000);
    let theirs = commit(&s, "theirs.txt", "t\n", "T", 2000);
    s.repo.reset(s.repo.find_commit(a).unwrap().as_object(), git2::ResetType::Hard, None).unwrap();
    let ours = commit(&s, "ours.txt", "o\n", "O", 3000);
    set_fetch_head(&s, theirs);
    assert_eq!(finish_pull(&s.repo, "origin", "main").unwrap(), "merge");
    let tip = s.repo.head().unwrap().peel_to_commit().unwrap();
    assert_eq!(tip.message(), Some("Merge remote-tracking branch 'origin/main'"));
    assert_eq!(tip.parent_ids().collect::<Vec<_>>(), vec![ours, theirs]);
}

#[test]
fn pull_with_conflict_reports_it() {
    let s = scratch();
    let a = commit(&s, "f.txt", "base\n", "A", 1000);
    let theirs = commit(&s, "f.txt", "theirs\n", "T", 2000);
    s.repo.reset(s.repo.find_commit(a).unwrap().as_object(), git2::ResetType::Hard, None).unwrap();
    let ours = commit(&s, "f.txt", "ours\n", "O", 3000);
    set_fetch_head(&s, theirs);
    assert_eq!(finish_pull(&s.repo, "origin", "main").unwrap_err().code, "MERGE_CONFLICT");
    assert_eq!(head_id(&s), ours);
}

#[test]
fn repository_info_of_a_repository() {
    let s = scratch();
    let info = get_repo_info(&path_text(&s)).unwrap();
    assert_eq!(info.path, path_text(&s));
    assert_eq!(info.name, s.dir.path().file_name().unwrap().to_string_lossy());
    assert!(info.is_repo);
    assert!(!info.is_bare);
    assert_eq!(info.current_branch, None);
    assert!(!info.has_remote);
    let fresh = tempfile::tempdir().unwrap();
    let fresh_path = fresh.path().to_string_lossy().to_string();
    init_repository(&fresh_path, false).unwrap();
    let fresh_info = get_repo_info(&fresh_path).unwrap();
    assert!(fresh_info.is_repo);
    assert!(fresh_info.is_empty);
    commit(&s, "f.txt", "1\n", "A", 1000);
    add_remote(&s.repo, "origin", "https://example.invalid/a.git").unwrap();
    let info = get_repo_info(&path_text(&s)).unwrap();
    assert_eq!(info.current_branch.as_deref(), Some("main"));
    assert!(info.has_remote);
    assert!(!info.is_empty);
}

#[test]
fn repository_info_of_a_plain_directory() {
    let dir = tempfile::tempdir().unwrap();
    let path = dir.path().to_string_lossy().to_string();
    let info = get_repo_info(&path).unwrap();
    assert_eq!(info.path, path);
    assert!(!info.is_repo);
    assert!(!info.is_bare);
    assert_eq!(info.current_branch, None);
    assert!(!info.has_remote);
    assert!(info.is_empty);
    let info = get_repo_info("/").unwrap();
    assert_eq!(info.name, "/");
}

#[test]
fn opening_tells_missing_from_invalid() {
    let dir = tempfile::tempdir().unwrap();
    let path = dir.path().to_string_lossy().to_string();
    let e = open_repository(&path).err().unwrap();
    assert_eq!(e.code, "INVALID_REPO");
    assert_eq!(e.details.as_deref(), Some(path.as_str()));
    let missing = format!("{}/nothing-here", path);
    let e = open_repository(&missing).err().unwrap();
    assert_eq!(e.code, "REPO_NOT_FOUND");
    assert_eq!(e.details.as_deref(), Some(missing.as_str()));
    init_repository(&path, false).unwrap();
    assert!(open_repository(&path).is_ok());
}

#[test]
fn init_makes_bare_and_plain_repositories() {
    let plain = tempfile::tempdir().unwrap();
    let repo = init_repository(&plain.path().to_string_lossy(), false).unwrap();
    assert!(!repo.is_bare());
    let bare = tempfile::tempdir().unwrap();
    let repo = init_repository(&bare.path().to_string_lossy(), true).unwrap();
    assert!(repo.is_bare());
    assert!(get_repo_info(&bare.path().to_string_lossy()).unwrap().is_bare);
}

#[test]
fn clone_copies_a_local_repository() {
    let s = scratch();
    let a = commit(&s, "f.txt", "1\n", "A", 1000);
    let target = tempfile::tempdir().unwrap();
    let into = target.path().join("copy").to_string_lossy().to_string();
    let copy = clone_repository(&path_text(&s), &into).unwrap();
    assert_eq!(copy.head().unwrap().peel_to_commit().unwrap().id(), a);
    let e = clone_repository("/definitely/not/a/repository", &format!("{}2", into)).err().unwrap();
    assert_eq!(e.code, "GIT_ERROR");
}

#[test]
fn configuration_is_read_and_written() {
    let s = scratch();
    assert_eq!(get_git_config(&s.repo, "user.name").as_deref(), Some("Tester"));
    assert_eq!(get_git_config(&s.repo, "some.unset-key"), None);
    set_git_config(&s.repo, "some.key", "value").unwrap();
    assert_eq!(get_git_config(&s.repo, "some.key").as_deref(), Some("value"));
    assert_eq!(set_git_config(&s.repo, "nosection", "v").unwrap_err().code, "GIT_ERROR");
}
