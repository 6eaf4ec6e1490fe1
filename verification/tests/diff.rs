use git_gui::diff::binary_delta;
use git_gui::diff::classify_origin;
use git_gui::diff::delta_path;
use git_gui::diff::expand_blame;
use git_gui::diff::find_file_diff;
use git_gui::diff::get_untracked_file_diff;
use git_gui::diff::hunk_header;
use git_gui::diff::hunk_info;
use git_gui::diff::is_untracked;
use git_gui::diff::line_info;
use git_gui::diff::status_label;
use git_gui::diff::tally;
use git_gui::diff::text_delta;
use git_gui::diff::trim_newlines;
use git_gui::diff::DiffInfo;
use git_gui::diff::HunkInfo;
use git_gui::diff::LineType;
use git_gui::store::diffs::BlameRecord;
use git_gui::store::diffs::DeltaRecord;
use git_gui::store::diffs::DeltaStatus;
use git_gui::store::diffs::HunkRecord;
use git_gui::store::diffs::LineRecord;
use git_gui::store::worktree::StatusRecord;

fn raw_line(origin: char, old: Option<u32>, new: Option<u32>, content: &str) -> LineRecord {
    LineRecord { origin, old_lineno: old, new_lineno: new, content: content.as_bytes().to_vec() }
}

fn hunk_of(origins: &str) -> HunkInfo {
    let lines = origins.chars().map(|c| line_info(raw_line(c, None, None, "x\n"))).collect();
    hunk_info(HunkRecord { old_start: 1, old_lines: 2, new_start: 3, new_lines: 4 }, lines)
}

fn record(old: Option<&str>, new: Option<&str>, status: DeltaStatus, binary: bool) -> DeltaRecord {
    DeltaRecord {
        old_path: old.map(String::from),
        new_path: new.map(String::from),
        status,
        is_binary: binary,
    }
}

fn count(delta: &DiffInfo, kind: LineType) -> usize {
    delta.hunks.iter().flat_map(|h| h.lines.iter()).filter(|l| l.line_type == kind).count()
}

#[test]
fn origins_are_classified() {
    assert_eq!(classify_origin('+'), LineType::Addition);
    assert_eq!(classify_origin('>'), LineType::Addition);
    assert_eq!(classify_origin('-'), LineType::Deletion);
    assert_eq!(classify_origin('<'), LineType::Deletion);
    assert_eq!(classify_origin('@'), LineType::Header);
    assert_eq!(classify_origin(' '), LineType::Context);
    assert_eq!(classify_origin('='), LineType::Context);
    assert_eq!(classify_origin('H'), LineType::Context);
    assert_eq!(classify_origin('B'), LineType::Context);
}

#[test]
fn closing_line_feeds_are_trimmed() {
    assert_eq!(trim_newlines("abc\n"), "abc");
    assert_eq!(trim_newlines("abc\n\n\n"), "abc");
    assert_eq!(trim_newlines("abc"), "abc");
    assert_eq!(trim_newlines("a\nb\n"), "a\nb");
    assert_eq!(trim_newlines("\n"), "");
    assert_eq!(trim_newlines(""), "");
    assert_eq!(trim_newlines("abc\r\n"), "abc\r");
}

#[test]
fn line_info_copies_and_classifies() {
    let line = line_info(raw_line('+', None, Some(3), "let x = 1;\n"));
    assert_eq!(line.old_line, None);
    assert_eq!(line.new_line, Some(3));
    assert_eq!(line.content, "let x = 1;");
    assert_eq!(line.origin, '+');
    assert_eq!(line.line_type, LineType::Addition);
    let line = line_info(LineRecord {
        origin: '-',
        old_lineno: Some(9),
        new_lineno: None,
        content: vec![b'a', 0xff, b'b', b'\n'],
    });
    assert_eq!(line.content, "a\u{fffd}b");
    assert_eq!(line.line_type, LineType::Deletion);
    assert_eq!(line.old_line, Some(9));
}

#[test]
fn hunk_header_is_written_from_the_ranges() {
    assert_eq!(hunk_header(1, 2, 3, 4), "@@ -1,2 +3,4 @@");
    assert_eq!(hunk_header(0, 0, 1, 120), "@@ -0,0 +1,120 @@");
    let hunk = hunk_info(
        HunkRecord { old_start: 10, old_lines: 0, new_start: 4294967295, new_lines: 7 },
        Vec::new(),
    );
    assert_eq!(hunk.header, "@@ -10,0 +4294967295,7 @@");
    assert_eq!((hunk.old_start, hunk.old_lines, hunk.new_start, hunk.new_lines), (10, 0, 4294967295, 7));
    assert!(hunk.lines.is_empty());
}

#[test]
fn status_labels() {
    assert_eq!(status_label(DeltaStatus::Added), "added");
    assert_eq!(status_label(DeltaStatus::Deleted), "deleted");
    assert_eq!(status_label(DeltaStatus::Modified), "modified");
    assert_eq!(status_label(DeltaStatus::Renamed), "renamed");
    assert_eq!(status_label(DeltaStatus::Copied), "copied");
    assert_eq!(status_label(DeltaStatus::Untracked), "untracked");
    for other in [
        DeltaStatus::Unmodified,
        DeltaStatus::Ignored,
        DeltaStatus::Typechange,
        DeltaStatus::Unreadable,
        DeltaStatus::Conflicted,
    ] {
        assert_eq!(status_label(other), "unknown");
    }
}

#[test]
fn delta_path_prefers_the_new_side() {
    assert_eq!(delta_path(&record(Some("old"), Some("new"), DeltaStatus::Renamed, false)), "new");
    assert_eq!(delta_path(&record(Some("old"), None, DeltaStatus::Deleted, false)), "old");
    assert_eq!(delta_path(&record(None, None, DeltaStatus::Modified, false)), "");
}

#[test]
fn tally_counts_one_kind_over_all_hunks() {
    let hunks = vec![hunk_of("++- @"), hunk_of(""), hunk_of("><<+")];
    assert_eq!(tally(&hunks, LineType::Addition), Some(4));
    assert_eq!(tally(&hunks, LineType::Deletion), Some(3));
    assert_eq!(tally(&hunks, LineType::Context), Some(1));
    assert_eq!(tally(&hunks, LineType::Header), Some(1));
    assert_eq!(tally(&hunks, LineType::Binary), Some(0));
    assert_eq!(tally(&Vec::new(), LineType::Addition), Some(0));
}

#[test]
fn text_delta_counts_what_its_hunks_hold() {
    let delta = text_delta(
        record(Some("a.rs"), Some("a.rs"), DeltaStatus::Modified, false),
        vec![hunk_of("+ -"), hunk_of("++>-<")],
    )
    .unwrap();
    assert_eq!(delta.path, "a.rs");
    assert_eq!(delta.old_path.as_deref(), Some("a.rs"));
    assert_eq!(delta.status, "modified");
    assert!(!delta.is_binary);
    assert_eq!(delta.additions, 4);
    assert_eq!(delta.deletions, 3);
    assert_eq!(delta.additions, count(&delta, LineType::Addition));
    assert_eq!(delta.deletions, count(&delta, LineType::Deletion));
    assert_eq!(delta.hunks.len(), 2);
}

#[test]
fn binary_delta_has_no_hunks() {
    let delta = binary_delta(record(None, Some("logo.png"), DeltaStatus::Added, true));
    assert_eq!(delta.path, "logo.png");
    assert_eq!(delta.status, "added");
    assert!(delta.is_binary);
    assert!(delta.hunks.is_empty());
    assert_eq!((delta.additions, delta.deletions), (0, 0));
}

#[test]
fn untracked_file_is_all_additions() {
    let delta = get_untracked_file_diff("notes.txt", "first\nsecond\r\nthird");
    assert_eq!(delta.path, "notes.txt");
    assert!(delta.old_path.is_none());
    assert_eq!(delta.status, "added");
    assert_eq!(delta.additions, 3);
    assert_eq!(delta.deletions, 0);
    assert!(!delta.is_binary);
    assert_eq!(delta.hunks.len(), 1);
    let hunk = &delta.hunks[0];
    assert_eq!(hunk.header, "@@ -0,0 +1,3 @@");
    assert_eq!((hunk.old_start, hunk.old_lines, hunk.new_start, hunk.new_lines), (0, 0, 1, 3));
    let texts: Vec<&str> = hunk.lines.iter().map(|l| l.content.as_str()).collect();
    assert_eq!(texts, vec!["first", "second", "third"]);
    for (i, line) in hunk.lines.iter().enumerate() {
        assert_eq!(line.old_line, None);
        assert_eq!(line.new_line, Some(i as u32 + 1));
        assert_eq!(line.origin, '+');
        assert_eq!(line.line_type, LineType::Addition);
    }
}

#[test]
fn untracked_empty_file_has_one_empty_hunk() {
    let delta = get_untracked_file_diff("empty", "");
    assert_eq!(delta.additions, 0);
    assert_eq!(delta.hunks.len(), 1);
    assert_eq!(delta.hunks[0].header, "@@ -0,0 +1,0 @@");
    assert!(delta.hunks[0].lines.is_empty());
}

#[test]
fn find_file_diff_takes_the_first_match() {
    let make = |path: &str, status: DeltaStatus| {
        text_delta(record(None, Some(path), status, false), Vec::new()).unwrap()
    };
    let deltas = vec![
        make("a", DeltaStatus::Added),
        make("b", DeltaStatus::Modified),
        make("b", DeltaStatus::Deleted),
    ];
    let found = find_file_diff(deltas, "b").unwrap();
    assert_eq!(found.path, "b");
    assert_eq!(found.status, "modified");
    let e = find_file_diff(vec![make("a", DeltaStatus::Added)], "c").unwrap_err();
    assert_eq!(e.code, "FILE_NOT_IN_DIFF");
    assert_eq!(e.message, "Arquivo não encontrado no diff");
    assert_eq!(e.details.as_deref(), Some("c"));
    assert_eq!(find_file_diff(Vec::new(), "a").unwrap_err().code, "FILE_NOT_IN_DIFF");
}

#[test]
fn untracked_paths_are_recognised() {
    let entry = |path: Option<&str>, wt_new: bool| StatusRecord {
        path: path.map(String::from),
        index_new: false,
        index_modified: false,
        index_deleted: false,
        index_renamed: false,
        wt_new,
        wt_modified: !wt_new,
        wt_deleted: false,
        conflicted: false,
    };
    let records = vec![entry(Some("a"), false), entry(None, true), entry(Some("b"), true)];
    assert!(is_untracked(&records, "b"));
    assert!(!is_untracked(&records, "a"));
    assert!(!is_untracked(&records, "c"));
    assert!(!is_untracked(&Vec::new(), "a"));
}

#[test]
fn blame_is_expanded_line_by_line() {
    let records = vec![
        BlameRecord {
            commit: "0123456789abcdef0123456789abcdef01234567".to_string(),
            author: Some("Ada".to_string()),
            seconds: 100,
            lines: 2,
        },
        BlameRecord {
            commit: "fedcba9876543210fedcba9876543210fedcba98".to_string(),
            author: None,
            seconds: 200,
            lines: 0,
        },
        BlameRecord {
            commit: "aaaaaaaaaaaaaaaaaaaaaaaaaaaaaaaaaaaaaaaa".to_string(),
            author: Some("Bob".to_string()),
            seconds: -5,
            lines: 3,
        },
    ];
    let out = expand_blame(&records).unwrap();
    assert_eq!(out.len(), 5);
    let lines: Vec<u32> = out.iter().map(|b| b.line).collect();
    assert_eq!(lines, vec![1, 2, 3, 4, 5]);
    let hashes: Vec<&str> = out.iter().map(|b| b.commit_hash.as_str()).collect();
    assert_eq!(hashes, vec!["0123456", "0123456", "aaaaaaa", "aaaaaaa", "aaaaaaa"]);
    let authors: Vec<&str> = out.iter().map(|b| b.author.as_str()).collect();
    assert_eq!(authors, vec!["Ada", "Ada", "Bob", "Bob", "Bob"]);
    let dates: Vec<i64> = out.iter().map(|b| b.date).collect();
    assert_eq!(dates, vec![100, 100, -5, -5, -5]);
    assert!(expand_blame(&Vec::new()).unwrap().is_empty());
}

#[test]
fn blame_author_missing_reads_empty() {
    let records = vec![BlameRecord {
        commit: "0123456789abcdef0123456789abcdef01234567".to_string(),
        author: None,
        seconds: 1,
        lines: 1,
    }];
    let out = expand_blame(&records).unwrap();
    assert_eq!(out[0].author, "");
}
