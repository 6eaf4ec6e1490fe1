//! The diff engine: turns the deltas, hunks and lines that the object store
//! reports into file deltas with classified lines and exact counters.

use vstd::prelude::*;
use crate::error::AppError;
use crate::error::AppResult;
use crate::store::commits::commit_parent;
use crate::store::commits::commit_tree;
use crate::store::commits::find_commit;
use crate::store::diffs::add_pathspec;
use crate::store::diffs::blame_records;
use crate::store::diffs::BlameRecord;
use crate::store::diffs::delta_at;
use crate::store::diffs::delta_count;
use crate::store::diffs::DeltaKey;
use crate::store::diffs::DeltaRecord;
use crate::store::diffs::DeltaStatus;
use crate::store::diffs::diff_entries;
use crate::store::diffs::diff_index_to_workdir;
use crate::store::diffs::diff_options;
use crate::store::diffs::diff_tree_to_index;
use crate::store::diffs::diff_tree_to_tree;
use crate::store::diffs::diff_tree_to_workdir_with_index;
use crate::store::diffs::given_patterns;
use crate::store::diffs::hunk_at;
use crate::store::diffs::hunk_count;
use crate::store::diffs::HunkRecord;
use crate::store::diffs::include_untracked;
use crate::store::diffs::key_of;
use crate::store::diffs::line_at;
use crate::store::diffs::line_count;
use crate::store::diffs::LineKey;
use crate::store::diffs::LineRecord;
use crate::store::diffs::lossy_text;
use crate::store::diffs::MAX_COUNTED_LINES;
use crate::store::diffs::patch_at;
use crate::store::diffs::patch_hunks;
use crate::store::diffs::patch_lines;
use crate::store::diffs::takes_untracked;
use crate::store::diffs::utf8_lossy;
use crate::store::refs::head;
use crate::store::refs::is_oid_text;
use crate::store::refs::oid_from_hex;
use crate::store::refs::peel_to_tree;
use crate::store::worktree::index;
use crate::store::worktree::status_records;
use crate::store::worktree::StatusRecord;
use crate::text::chars_of;
use crate::text::decimal;
use crate::text::decimal_string;
use crate::text::has_nul;
use crate::text::head_chars;
use crate::text::lines_of;
use crate::text::rows;
use crate::text::same_text;
use crate::text::slice_chars;
use crate::text::split_lines;
use crate::text::string_of;
use crate::text::take_chars;

verus! {

/// The kind of a line of a diff.
#[derive(Debug, Clone, Copy, PartialEq, Eq, Structural)]
pub enum LineType {
    Context,
    Addition,
    Deletion,
    Header,
    Binary,
}

/// One line of a hunk.
#[derive(Debug, Clone)]
pub struct LineInfo {
    pub old_line: Option<u32>,
    pub new_line: Option<u32>,
    pub content: String,
    pub origin: char,
    pub line_type: LineType,
}

/// One hunk: a run of lines with the ranges it covers on both sides.
#[derive(Debug, Clone)]
pub struct HunkInfo {
    pub header: String,
    pub old_start: u32,
    pub old_lines: u32,
    pub new_start: u32,
    pub new_lines: u32,
    pub lines: Vec<LineInfo>,
}

/// The changes of one file.
#[derive(Debug, Clone)]
pub struct DiffInfo {
    pub path: String,
    pub old_path: Option<String>,
    pub status: String,
    pub additions: usize,
    pub deletions: usize,
    pub is_binary: bool,
    pub hunks: Vec<HunkInfo>,
}

/// The kind of a line, read off its origin sigil: `+` and `>` add, `-` and
/// `<` delete, `@` heads a hunk, anything else is context.
pub open spec fn classify(origin: char) -> LineType {
    if origin == '+' || origin == '>' {
        LineType::Addition
    } else if origin == '-' || origin == '<' {
        LineType::Deletion
    } else if origin == '@' {
        LineType::Header
    } else {
        LineType::Context
    }
}

/// `s` without the line feeds that close it.
pub open spec fn strip_newlines(s: Seq<char>) -> Seq<char>
    decreases s.len(),
{
    if s.len() > 0 && s.last() == '\n' {
        strip_newlines(s.drop_last())
    } else {
        s
    }
}

/// The label under which a status is shown.
pub open spec fn status_text(status: DeltaStatus) -> Seq<char> {
    match status {
        DeltaStatus::Added => "added"@,
        DeltaStatus::Deleted => "deleted"@,
        DeltaStatus::Modified => "modified"@,
        DeltaStatus::Renamed => "renamed"@,
        DeltaStatus::Copied => "copied"@,
        DeltaStatus::Untracked => "untracked"@,
        _ => "unknown"@,
    }
}

/// Whether `text` is one of the labels under which a status is shown.
pub open spec fn is_status_label(text: Seq<char>) -> bool {
    exists|status: DeltaStatus| text == #[trigger] status_text(status)
}

/// What is left of a text after its closing line feeds are gone does not
/// close with a line feed.
pub proof fn lemma_strip_newlines_clean(s: Seq<char>)
    ensures
        strip_newlines(s).len() == 0 || strip_newlines(s).last() != '\n',
    decreases s.len(),
{
    if s.len() > 0 && s.last() == '\n' {
        lemma_strip_newlines_clean(s.drop_last());
    }
}

/// The header line of a hunk: `@@ -a,b +c,d @@`.
pub open spec fn header_text(old_start: nat, old_lines: nat, new_start: nat, new_lines: nat) -> Seq<char> {
    "@@ -"@ + decimal(old_start) + ","@ + decimal(old_lines) + " +"@ + decimal(new_start) + ","@
        + decimal(new_lines) + " @@"@
}

/// The path a delta is listed under: the new side's, else the old side's,
/// else the empty path.
pub open spec fn listed_path(record: DeltaRecord) -> Seq<char> {
    match record.new_path {
        Some(p) => p@,
        None => match record.old_path {
            Some(p) => p@,
            None => Seq::empty(),
        },
    }
}

/// How many of `lines` are of kind `kind`.
pub open spec fn count_lines(lines: Seq<LineInfo>, kind: LineType) -> nat
    decreases lines.len(),
{
    if lines.len() == 0 {
        0
    } else {
        count_lines(lines.drop_last(), kind) + if lines.last().line_type == kind {
            1nat
        } else {
            0nat
        }
    }
}

/// How many lines of kind `kind` the hunks hold together.
pub open spec fn count_hunks(hunks: Seq<HunkInfo>, kind: LineType) -> nat
    decreases hunks.len(),
{
    if hunks.len() == 0 {
        0
    } else {
        count_hunks(hunks.drop_last(), kind) + count_lines(hunks.last().lines@, kind)
    }
}

impl LineInfo {
    /// The line carries the kind that its origin sigil stands for.
    pub open spec fn well_formed(self) -> bool {
        self.line_type == classify(self.origin)
    }

    /// The content does not close with a line feed.
    pub open spec fn closes_clean(self) -> bool {
        self.content@.len() == 0 || self.content@.last() != '\n'
    }

    /// The line is what `raw` shows: same numbers and sigil, the kind of the
    /// sigil, and the lossily decoded content without closing line feeds.
    pub open spec fn renders(self, raw: LineRecord) -> bool {
        &&& self.old_line == raw.old_lineno
        &&& self.new_line == raw.new_lineno
        &&& self.origin == raw.origin
        &&& self.line_type == classify(raw.origin)
        &&& self.content@ == strip_newlines(utf8_lossy(raw.content@))
    }

    /// The line is what the line `key` of a patch shows.
    pub open spec fn shows(self, key: LineKey) -> bool {
        &&& self.origin == key.0
        &&& self.old_line == key.1
        &&& self.new_line == key.2
        &&& self.line_type == classify(key.0)
        &&& self.content@ == strip_newlines(utf8_lossy(key.3))
    }
}

/// Whether `lines` show the lines `keys`, one for one and in their order:
/// all of them where their number fits the counter of the object library,
/// and the first of them where it does not.
pub open spec fn lines_drawn(lines: Seq<LineInfo>, keys: Seq<LineKey>) -> bool {
    &&& lines.len() <= keys.len()
    &&& keys.len() <= MAX_COUNTED_LINES ==> lines.len() == keys.len()
    &&& forall|i: int| 0 <= i < lines.len() ==> (#[trigger] lines[i]).shows(keys[i])
}

impl HunkInfo {
    /// Every line of the hunk is well formed.
    pub open spec fn well_formed(self) -> bool {
        forall|i: int| 0 <= i < self.lines@.len() ==> (#[trigger] self.lines@[i]).well_formed()
    }

    /// What holds of a hunk read from the object store: every line is well
    /// formed and closes without line feed, and the header is written from
    /// the ranges.
    pub open spec fn as_read(self) -> bool {
        &&& forall|i: int|
            0 <= i < self.lines@.len() ==> (#[trigger] self.lines@[i]).well_formed()
                && self.lines@[i].closes_clean()
        &&& self.header@ == header_text(
            self.old_start as nat,
            self.old_lines as nat,
            self.new_start as nat,
            self.new_lines as nat,
        )
    }

    /// The hunk has the ranges of `raw` and the header written from them.
    pub open spec fn renders(self, raw: HunkRecord) -> bool {
        &&& self.old_start == raw.old_start
        &&& self.old_lines == raw.old_lines
        &&& self.new_start == raw.new_start
        &&& self.new_lines == raw.new_lines
        &&& self.header@ == header_text(
            raw.old_start as nat,
            raw.old_lines as nat,
            raw.new_start as nat,
            raw.new_lines as nat,
        )
    }
}

impl DiffInfo {
    /// The counting invariant: a binary delta has no hunks and zero
    /// counters; otherwise the counters are the numbers of added and deleted
    /// lines over all hunks, and every hunk is well formed.
    pub open spec fn well_formed(self) -> bool {
        &&& forall|i: int| 0 <= i < self.hunks@.len() ==> (#[trigger] self.hunks@[i]).well_formed()
        &&& if self.is_binary {
            self.hunks@.len() == 0 && self.additions == 0 && self.deletions == 0
        } else {
            &&& self.additions == count_hunks(self.hunks@, LineType::Addition)
            &&& self.deletions == count_hunks(self.hunks@, LineType::Deletion)
        }
    }

    /// What holds of a delta read from the object store: the counting
    /// invariant, a status that is one of the seven labels, and hunks as
    /// they are read.
    pub open spec fn as_read(self) -> bool {
        &&& self.well_formed()
        &&& is_status_label(self.status@)
        &&& forall|i: int| 0 <= i < self.hunks@.len() ==> (#[trigger] self.hunks@[i]).as_read()
    }

    /// The delta is listed as `record` asks: path, old path and status
    /// label.
    pub open spec fn renders(self, record: DeltaRecord) -> bool {
        &&& self.path@ == listed_path(record)
        &&& self.old_path == record.old_path
        &&& self.status@ == status_text(record.status)
    }

    /// The delta is listed as the entry `key` of a comparison asks: under
    /// the new path, else the old path, else the empty path, and with the
    /// old path.
    pub open spec fn lists(self, key: DeltaKey) -> bool {
        &&& self.path@ == match key.1 {
            Some(path) => path,
            None => match key.0 {
                Some(path) => path,
                None => Seq::empty(),
            },
        }
        &&& match self.old_path {
            Some(path) => key.0 == Some(path@),
            None => key.0 is None,
        }
    }
}

/// Whether `deltas` are drawn from `entries` at `places`: each delta lists
/// the entry at its place, and the places go upwards, so that the deltas
/// keep the order of the entries and no entry is listed twice.
pub open spec fn drawn_at(deltas: Seq<DiffInfo>, entries: Seq<DeltaKey>, places: Seq<int>) -> bool {
    &&& places.len() == deltas.len()
    &&& forall|k: int|
        0 <= k < deltas.len() ==> 0 <= #[trigger] places[k] < entries.len() && deltas[k].lists(
            entries[places[k]],
        )
    &&& forall|k: int, l: int| 0 <= k < l < places.len() ==> #[trigger] places[k] < #[trigger] places[l]
}

/// Whether `deltas` are drawn from `entries` in their order, at most one
/// from each.
pub open spec fn drawn_from(deltas: Seq<DiffInfo>, entries: Seq<DeltaKey>) -> bool {
    exists|places: Seq<int>| drawn_at(deltas, entries, places)
}

/// The kind of a line with origin sigil `origin`.
pub fn classify_origin(origin: char) -> (kind: LineType)
    ensures
        kind == classify(origin),
{
    if origin == '+' || origin == '>' {
        LineType::Addition
    } else if origin == '-' || origin == '<' {
        LineType::Deletion
    } else if origin == '@' {
        LineType::Header
    } else {
        LineType::Context
    }
}

/// `text` without the line feeds that close it.
pub fn trim_newlines(text: &str) -> (out: String)
    ensures
        out@ == strip_newlines(text@),
{
    let v = chars_of(text);
    let mut end: usize = v.len();
    assert(v@.take(end as int) =~= v@);
    while end > 0 && v[end - 1] == '\n'
        invariant
            end <= v.len(),
            strip_newlines(v@) == strip_newlines(v@.take(end as int)),
        decreases end,
    {
        assert(v@.take(end as int).drop_last() =~= v@.take(end - 1));
        end = end - 1;
    }
    let kept = slice_chars(&v, 0, end);
    assert(kept@ =~= v@.take(end as int));
    string_of(&kept)
}

/// The line that `raw` shows.
pub fn line_info(raw: LineRecord) -> (line: LineInfo)
    ensures
        line.renders(raw),
        line.well_formed(),
        line.closes_clean(),
{
    let text = lossy_text(&raw.content);
    let content = trim_newlines(text.as_str());
    proof {
        lemma_strip_newlines_clean(text@);
    }
    LineInfo {
        old_line: raw.old_lineno,
        new_line: raw.new_lineno,
        content,
        origin: raw.origin,
        line_type: classify_origin(raw.origin),
    }
}

/// The header line `@@ -a,b +c,d @@`.
pub fn hunk_header(old_start: u64, old_lines: u64, new_start: u64, new_lines: u64) -> (s: String)
    ensures
        s@ == header_text(old_start as nat, old_lines as nat, new_start as nat, new_lines as nat),
{
    let mut s = String::new();
    assert(s@ + "@@ -"@ =~= "@@ -"@);
    s.push_str("@@ -");
    s.push_str(decimal_string(old_start).as_str());
    s.push_str(",");
    s.push_str(decimal_string(old_lines).as_str());
    s.push_str(" +");
    s.push_str(decimal_string(new_start).as_str());
    s.push_str(",");
    s.push_str(decimal_string(new_lines).as_str());
    s.push_str(" @@");
    s
}

/// The hunk with the ranges of `raw` and the given lines.
pub fn hunk_info(raw: HunkRecord, lines: Vec<LineInfo>) -> (hunk: HunkInfo)
    ensures
        hunk.renders(raw),
        hunk.lines == lines,
{
    HunkInfo {
        header: hunk_header(
            raw.old_start as u64,
            raw.old_lines as u64,
            raw.new_start as u64,
            raw.new_lines as u64,
        ),
        old_start: raw.old_start,
        old_lines: raw.old_lines,
        new_start: raw.new_start,
        new_lines: raw.new_lines,
        lines,
    }
}

/// The label under which `status` is shown.
pub fn status_label(status: DeltaStatus) -> (label: String)
    ensures
        label@ == status_text(status),
{
    match status {
        DeltaStatus::Added => "added".to_owned(),
        DeltaStatus::Deleted => "deleted".to_owned(),
        DeltaStatus::Modified => "modified".to_owned(),
        DeltaStatus::Renamed => "renamed".to_owned(),
        DeltaStatus::Copied => "copied".to_owned(),
        DeltaStatus::Untracked => "untracked".to_owned(),
        _ => "unknown".to_owned(),
    }
}

/// The path `record` is listed under.
pub fn delta_path(record: &DeltaRecord) -> (path: String)
    ensures
        path@ == listed_path(*record),
{
    match &record.new_path {
        Some(p) => p.clone(),
        None => match &record.old_path {
            Some(p) => p.clone(),
            None => String::new(),
        },
    }
}

/// How many lines of kind `kind` the hunks hold, unless that number does
/// not fit the counter.
pub fn tally(hunks: &Vec<HunkInfo>, kind: LineType) -> (total: Option<usize>)
    ensures
        match total {
            Some(n) => n == count_hunks(hunks@, kind),
            None => count_hunks(hunks@, kind) > usize::MAX,
        },
{
    let mut total: usize = 0;
    let mut h: usize = 0;
    while h < hunks.len()
        invariant
            h <= hunks.len(),
            total == count_hunks(hunks@.take(h as int), kind),
        decreases hunks.len() - h,
    {
        let lines = &hunks[h].lines;
        let ghost before = count_hunks(hunks@.take(h as int), kind);
        let mut i: usize = 0;
        while i < lines.len()
            invariant
                i <= lines.len(),
                h < hunks.len(),
                lines@ == hunks@[h as int].lines@,
                before == count_hunks(hunks@.take(h as int), kind),
                total == before + count_lines(lines@.take(i as int), kind),
            decreases lines.len() - i,
        {
            assert(lines@.take(i + 1).drop_last() =~= lines@.take(i as int));
            if lines[i].line_type == kind {
                if total == usize::MAX {
                    proof {
                        lemma_count_lines_grows(lines@, i + 1, kind);
                        lemma_count_hunks_grows(hunks@, h as int, kind);
                    }
                    return None;
                }
                total = total + 1;
            }
            i = i + 1;
        }
        assert(lines@.take(lines.len() as int) =~= lines@);
        assert(hunks@.take(h + 1).drop_last() =~= hunks@.take(h as int));
        h = h + 1;
    }
    assert(hunks@.take(hunks.len() as int) =~= hunks@);
    Some(total)
}

/// Counting over a prefix of the lines never exceeds counting over all.
pub proof fn lemma_count_lines_grows(lines: Seq<LineInfo>, upto: int, kind: LineType)
    requires
        0 <= upto <= lines.len(),
    ensures
        count_lines(lines.take(upto), kind) <= count_lines(lines, kind),
    decreases lines.len(),
{
    if upto == lines.len() {
        assert(lines.take(upto) =~= lines);
    } else {
        lemma_count_lines_grows(lines.drop_last(), upto, kind);
        assert(lines.drop_last().take(upto) =~= lines.take(upto));
    }
}

/// Counting over the first `upto` hunks and part of the next never exceeds
/// counting over all hunks.
pub proof fn lemma_count_hunks_grows(hunks: Seq<HunkInfo>, upto: int, kind: LineType)
    requires
        0 <= upto < hunks.len(),
    ensures
        count_hunks(hunks.take(upto), kind) + count_lines(hunks[upto].lines@, kind) <= count_hunks(
            hunks,
            kind,
        ),
    decreases hunks.len(),
{
    if upto == hunks.len() - 1 {
        assert(hunks.take(upto) =~= hunks.drop_last());
    } else {
        lemma_count_hunks_grows(hunks.drop_last(), upto, kind);
        assert(hunks.drop_last().take(upto) =~= hunks.take(upto));
    }
}

/// The delta of a binary entry: no hunks, zero counters.
pub fn binary_delta(record: DeltaRecord) -> (delta: DiffInfo)
    ensures
        delta.renders(record),
        delta.well_formed(),
        delta.is_binary,
        delta.hunks@.len() == 0,
        delta.additions == 0,
        delta.deletions == 0,
{
    DiffInfo {
        path: delta_path(&record),
        old_path: record.old_path,
        status: status_label(record.status),
        additions: 0,
        deletions: 0,
        is_binary: true,
        hunks: Vec::new(),
    }
}

/// The delta of a text entry with the given hunks; its counters are the
/// numbers of added and deleted lines in them. Fails with `INTERNAL_ERROR`
/// only when such a number does not fit the counter.
pub fn text_delta(record: DeltaRecord, hunks: Vec<HunkInfo>) -> (r: AppResult<DiffInfo>)
    ensures
        match r {
            Ok(delta) => {
                &&& delta.renders(record)
                &&& !delta.is_binary
                &&& delta.hunks == hunks
                &&& delta.additions == count_hunks(hunks@, LineType::Addition)
                &&& delta.deletions == count_hunks(hunks@, LineType::Deletion)
            },
            Err(e) => {
                &&& e.plain("INTERNAL_ERROR"@, "Line count out of range"@)
                &&& (count_hunks(hunks@, LineType::Addition) > usize::MAX || count_hunks(
                    hunks@,
                    LineType::Deletion,
                ) > usize::MAX)
            },
        },
{
    let additions = match tally(&hunks, LineType::Addition) {
        Some(n) => n,
        None => {
            return Err(AppError::internal("Line count out of range"));
        },
    };
    let deletions = match tally(&hunks, LineType::Deletion) {
        Some(n) => n,
        None => {
            return Err(AppError::internal("Line count out of range"));
        },
    };
    Ok(
        DiffInfo {
            path: delta_path(&record),
            old_path: record.old_path,
            status: status_label(record.status),
            additions,
            deletions,
            is_binary: false,
            hunks,
        },
    )
}

/// The lines of hunk `hunk` of `patch`, in their order: as many as the
/// store counts, each showing the line at its position. A hunk whose line
/// count cannot be read counts as empty, as does a hunk that the patch
/// does not have.
pub fn read_lines(patch: &git2::Patch<'_>, hunk: usize) -> (r: AppResult<Vec<LineInfo>>)
    ensures
        match r {
            Ok(lines) => {
                &&& forall|i: int|
                    0 <= i < lines@.len() ==> (#[trigger] lines@[i]).well_formed() && lines@[i].closes_clean()
                &&& hunk < patch_hunks(*patch).len() ==> lines_drawn(lines@, patch_lines(*patch, hunk as int))
            },
            Err(e) => e.is_store_failure(),
        },
{
    let n = match line_count(patch, hunk) {
        Ok(n) => n,
        Err(_) => 0,
    };
    let ghost keys = patch_lines(*patch, hunk as int);
    let mut lines: Vec<LineInfo> = Vec::new();
    let mut i: usize = 0;
    while i < n
        invariant
            lines@.len() == i,
            i <= n,
            keys == patch_lines(*patch, hunk as int),
            hunk < patch_hunks(*patch).len() && keys.len() <= MAX_COUNTED_LINES ==> n == keys.len(),
            forall|k: int|
                0 <= k < lines@.len() ==> (#[trigger] lines@[k]).well_formed() && lines@[k].closes_clean(),
            lines@.len() <= keys.len(),
            forall|k: int| 0 <= k < lines@.len() ==> (#[trigger] lines@[k]).shows(keys[k]),
        decreases n - i,
    {
        match line_at(patch, hunk, i) {
            Ok(raw) => {
                lines.push(line_info(raw));
            },
            Err(e) => {
                return Err(AppError::git_error(e));
            },
        }
        i = i + 1;
    }
    Ok(lines)
}

/// The hunks of `patch`, in their order: one for each hunk of the patch,
/// with its ranges and with lines that show the lines of that hunk.
pub fn read_hunks(patch: &git2::Patch<'_>) -> (r: AppResult<Vec<HunkInfo>>)
    ensures
        match r {
            Ok(hunks) => {
                &&& hunks@.len() == patch_hunks(*patch).len()
                &&& forall|i: int|
                    0 <= i < hunks@.len() ==> {
                        &&& (#[trigger] hunks@[i]).as_read()
                        &&& hunks@[i].renders(patch_hunks(*patch)[i])
                        &&& lines_drawn(hunks@[i].lines@, patch_lines(*patch, i))
                    }
            },
            Err(e) => e.is_store_failure(),
        },
{
    let n = hunk_count(patch);
    let mut hunks: Vec<HunkInfo> = Vec::new();
    let mut h: usize = 0;
    while h < n
        invariant
            n == patch_hunks(*patch).len(),
            hunks@.len() == h,
            h <= n,
            forall|k: int|
                0 <= k < hunks@.len() ==> {
                    &&& (#[trigger] hunks@[k]).as_read()
                    &&& hunks@[k].renders(patch_hunks(*patch)[k])
                    &&& lines_drawn(hunks@[k].lines@, patch_lines(*patch, k))
                },
        decreases n - h,
    {
        let raw = match hunk_at(patch, h) {
            Ok(raw) => raw,
            Err(e) => {
                return Err(AppError::git_error(e));
            },
        };
        let lines = match read_lines(patch, h) {
            Ok(lines) => lines,
            Err(e) => {
                return Err(e);
            },
        };
        hunks.push(hunk_info(raw, lines));
        h = h + 1;
    }
    Ok(hunks)
}

/// What the store gave for one entry of a comparison: the record of the
/// entry, and the hunks of its patch where a patch was asked for and the
/// store produced one. No patch is asked for a binary entry.
#[derive(Debug, Clone)]
pub struct DeltaRead {
    pub record: DeltaRecord,
    pub hunks: Option<Vec<HunkInfo>>,
}

impl DeltaRead {
    /// An entry is kept when it is binary or the store produced a patch
    /// for it.
    pub open spec fn kept(self) -> bool {
        self.record.is_binary || self.hunks is Some
    }

    /// The hunks were read from the store.
    pub open spec fn as_read(self) -> bool {
        self.hunks matches Some(hunks) ==> forall|i: int|
            0 <= i < hunks@.len() ==> (#[trigger] hunks@[i]).as_read()
    }
}

/// How many of `reads` are kept.
pub open spec fn kept_count(reads: Seq<DeltaRead>) -> nat
    decreases reads.len(),
{
    if reads.len() == 0 {
        0
    } else {
        kept_count(reads.drop_last()) + if reads.last().kept() {
            1nat
        } else {
            0nat
        }
    }
}

impl DiffInfo {
    /// The delta is what is made of `read`: it is listed as the record
    /// asks; for a binary entry it has no hunks and zero counters, and
    /// otherwise it has the hunks that were read and counts their lines.
    pub open spec fn made_of(self, read: DeltaRead) -> bool {
        &&& self.renders(read.record)
        &&& self.is_binary == read.record.is_binary
        &&& if read.record.is_binary {
            self.hunks@.len() == 0 && self.additions == 0 && self.deletions == 0
        } else {
            &&& read.hunks matches Some(hunks) && self.hunks == hunks
            &&& self.additions == count_hunks(self.hunks@, LineType::Addition)
            &&& self.deletions == count_hunks(self.hunks@, LineType::Deletion)
        }
    }
}

/// Whether `deltas` are made of the kept ones of `reads` at `places`: each
/// delta is made of the read at its place, and the places go upwards.
pub open spec fn assembled_at(deltas: Seq<DiffInfo>, reads: Seq<DeltaRead>, places: Seq<int>) -> bool {
    &&& places.len() == deltas.len()
    &&& forall|k: int|
        0 <= k < deltas.len() ==> {
            &&& 0 <= #[trigger] places[k] < reads.len()
            &&& reads[places[k]].kept()
            &&& deltas[k].made_of(reads[places[k]])
        }
    &&& forall|k: int, l: int| 0 <= k < l < places.len() ==> #[trigger] places[k] < #[trigger] places[l]
}

/// Whether `deltas` are what is made of `reads`: one delta for each kept
/// read, in their order, and none besides.
pub open spec fn assembled(deltas: Seq<DiffInfo>, reads: Seq<DeltaRead>) -> bool {
    &&& deltas.len() == kept_count(reads)
    &&& exists|places: Seq<int>| assembled_at(deltas, reads, places)
}

/// Whether `reads` hold one read for each of `entries`, in their order.
pub open spec fn reads_of(reads: Seq<DeltaRead>, entries: Seq<DeltaKey>) -> bool {
    &&& reads.len() == entries.len()
    &&& forall|i: int| 0 <= i < reads.len() ==> key_of((#[trigger] reads[i]).record) == entries[i]
}

/// The deltas that are made of what the store gave for the entries of a
/// comparison: one for each entry that is kept, in their order. A binary
/// entry becomes a delta without hunks; an entry with a patch becomes a
/// delta with the hunks of the patch, whose counters are the numbers of
/// added and deleted lines in them; an entry without a patch is left
/// out. Fails with `INTERNAL_ERROR` only when such a number does not fit
/// the counter.
pub fn assemble(reads: Vec<DeltaRead>) -> (r: AppResult<Vec<DiffInfo>>)
    ensures
        match r {
            Ok(deltas) => {
                &&& assembled(deltas@, reads@)
                &&& (forall|i: int| 0 <= i < reads@.len() ==> (#[trigger] reads@[i]).as_read()) ==> forall|
                    i: int,
                | 0 <= i < deltas@.len() ==> (#[trigger] deltas@[i]).as_read()
            },
            Err(e) => e.plain("INTERNAL_ERROR"@, "Line count out of range"@),
        },
{
    let ghost all = reads@;
    let mut rest = reads;
    let mut deltas: Vec<DiffInfo> = Vec::new();
    let ghost mut places: Seq<int> = Seq::empty();
    let ghost mut seen: int = 0;
    assert(rest@ =~= all.skip(0));
    assert(all.take(0) =~= Seq::<DeltaRead>::empty());
    while rest.len() > 0
        invariant
            0 <= seen <= all.len(),
            seen + rest@.len() == all.len(),
            rest@ == all.skip(seen),
            deltas@.len() == kept_count(all.take(seen)),
            assembled_at(deltas@, all, places),
            forall|k: int| 0 <= k < places.len() ==> #[trigger] places[k] < seen,
            (forall|i: int| 0 <= i < all.len() ==> (#[trigger] all[i]).as_read()) ==> forall|i: int|
                0 <= i < deltas@.len() ==> (#[trigger] deltas@[i]).as_read(),
        decreases rest.len(),
    {
        let ghost before = places;
        let read = rest.remove(0);
        proof {
            assert(read == all[seen]);
            assert(all.take(seen + 1).drop_last() =~= all.take(seen));
            assert(all.take(seen + 1).last() == all[seen]);
        }
        let DeltaRead { record, hunks } = read;
        if record.is_binary {
            deltas.push(binary_delta(record));
            proof {
                places = before.push(seen);
            }
        } else {
            match hunks {
                Some(hunks) => match text_delta(record, hunks) {
                    Ok(delta) => {
                        deltas.push(delta);
                        proof {
                            places = before.push(seen);
                        }
                    },
                    Err(e) => {
                        return Err(e);
                    },
                },
                None => {},
            }
        }
        proof {
            seen = seen + 1;
            assert(rest@ =~= all.skip(seen));
        }
    }
    assert(all.take(seen) =~= all);
    Ok(deltas)
}

/// The file deltas of a comparison, in the order the object store lists
/// them. Binary entries become deltas without hunks; entries for which the
/// store produces no patch are left out. Whatever the store reports, every
/// delta returned satisfies the counting invariant: its counters are the
/// numbers of added and deleted lines in its hunks. The deltas are drawn
/// from the entries of the comparison in their order, at most one from
/// each: they are what `assemble` makes of one read for each entry.
pub fn parse_diff(diff: &git2::Diff<'_>) -> (r: AppResult<Vec<DiffInfo>>)
    ensures
        match r {
            Ok(deltas) => {
                &&& forall|i: int| 0 <= i < deltas@.len() ==> (#[trigger] deltas@[i]).as_read()
                &&& drawn_from(deltas@, diff_entries(*diff))
                &&& exists|reads: Seq<DeltaRead>| #[trigger]
                    reads_of(reads, diff_entries(*diff)) && assembled(deltas@, reads)
            },
            Err(e) => e.is_store_failure() || e.code@ == "INTERNAL_ERROR"@,
        },
{
    let n = delta_count(diff);
    let mut reads: Vec<DeltaRead> = Vec::new();
    let mut i: usize = 0;
    while i < n
        invariant
            n == diff_entries(*diff).len(),
            i <= n,
            reads@.len() == i,
            forall|k: int| 0 <= k < reads@.len() ==> key_of((#[trigger] reads@[k]).record) == diff_entries(*diff)[k],
            forall|k: int| 0 <= k < reads@.len() ==> (#[trigger] reads@[k]).as_read(),
        decreases n - i,
    {
        let record = match delta_at(diff, i) {
            Some(record) => record,
            None => {
                return Err(AppError::internal("Delta index out of range"));
            },
        };
        let hunks = if record.is_binary {
            None
        } else {
            match patch_at(diff, i) {
                Err(e) => {
                    return Err(AppError::git_error(e));
                },
                Ok(None) => None,
                Ok(Some(patch)) => match read_hunks(&patch) {
                    Ok(hunks) => Some(hunks),
                    Err(e) => {
                        return Err(e);
                    },
                },
            }
        };
        reads.push(DeltaRead { record, hunks });
        i = i + 1;
    }
    let ghost gathered = reads@;
    match assemble(reads) {
        Ok(deltas) => {
            proof {
                let places = choose|places: Seq<int>| assembled_at(deltas@, gathered, places);
                assert(drawn_at(deltas@, diff_entries(*diff), places));
                assert(reads_of(gathered, diff_entries(*diff)));
            }
            Ok(deltas)
        },
        Err(e) => Err(e),
    }
}

/// The tree that `HEAD` points at, if there is one.
fn head_tree<'r>(repo: &'r git2::Repository) -> (tree: Option<git2::Tree<'r>>) {
    match head(repo) {
        Ok(reference) => match peel_to_tree(&reference) {
            Ok(tree) => Some(tree),
            Err(_) => None,
        },
        Err(_) => None,
    }
}

/// The options of the comparison of the whole working tree: untracked
/// files are listed, and the comparison is not limited to any path.
pub fn working_diff_options() -> (options: git2::DiffOptions)
    ensures
        takes_untracked(options),
        given_patterns(options) == Seq::<Seq<char>>::empty(),
{
    let mut options = diff_options();
    include_untracked(&mut options, true);
    options
}

/// The options of the comparison of one tracked path: untracked files
/// are not listed, and the comparison is limited to exactly that path. A
/// path that holds a NUL character names no file: `INTERNAL_ERROR`.
pub fn file_diff_options(file_path: &str) -> (r: AppResult<git2::DiffOptions>)
    ensures
        match r {
            Ok(options) => {
                &&& !file_path@.contains('\0')
                &&& !takes_untracked(options)
                &&& given_patterns(options) == seq![file_path@]
            },
            Err(e) => file_path@.contains('\0') && e.plain("INTERNAL_ERROR"@, "Path holds a NUL character"@),
        },
{
    if has_nul(file_path) {
        return Err(AppError::internal("Path holds a NUL character"));
    }
    let mut options = diff_options();
    add_pathspec(&mut options, file_path);
    assert(given_patterns(options) =~= seq![file_path@]);
    Ok(options)
}

/// The two sides that the comparison of one tracked path sets against
/// each other.
#[derive(Debug, Clone, Copy, PartialEq, Eq, Structural)]
pub enum FileSides {
    /// `HEAD` against the index: what is staged.
    HeadToIndex,
    /// The index against the working tree: what is not staged.
    IndexToWorkdir,
}

/// The staged changes of a path are those between `HEAD` and the index;
/// the others are those between the index and the working tree.
pub open spec fn file_sides(staged: bool) -> FileSides {
    if staged {
        FileSides::HeadToIndex
    } else {
        FileSides::IndexToWorkdir
    }
}

/// The two sides that the comparison of one tracked path sets against
/// each other.
pub fn plan_file_diff(staged: bool) -> (sides: FileSides)
    ensures
        sides == file_sides(staged),
{
    if staged {
        FileSides::HeadToIndex
    } else {
        FileSides::IndexToWorkdir
    }
}

/// `HEAD` against the index and the working tree, untracked files included.
pub fn get_working_diff(repo: &git2::Repository) -> (r: AppResult<Vec<DiffInfo>>)
    ensures
        match r {
            Ok(deltas) => forall|i: int| 0 <= i < deltas@.len() ==> (#[trigger] deltas@[i]).as_read(),
            Err(e) => e.is_store_failure() || e.code@ == "INTERNAL_ERROR"@,
        },
{
    let mut options = working_diff_options();
    let tree = head_tree(repo);
    match diff_tree_to_workdir_with_index(repo, tree.as_ref(), Some(&mut options)) {
        Ok(diff) => parse_diff(&diff),
        Err(e) => Err(AppError::git_error(e)),
    }
}

/// `HEAD` against the index.
pub fn get_staged_diff(repo: &git2::Repository) -> (r: AppResult<Vec<DiffInfo>>)
    ensures
        match r {
            Ok(deltas) => forall|i: int| 0 <= i < deltas@.len() ==> (#[trigger] deltas@[i]).as_read(),
            Err(e) => e.is_store_failure() || e.code@ == "INTERNAL_ERROR"@,
        },
{
    let tree = head_tree(repo);
    match diff_tree_to_index(repo, tree.as_ref(), None, None) {
        Ok(diff) => parse_diff(&diff),
        Err(e) => Err(AppError::git_error(e)),
    }
}

/// The tree of the first parent of `commit` against the tree of `commit`;
/// a commit without parent is compared against the empty tree. A hash that
/// cannot be read as an object id fails with `COMMIT_NOT_FOUND`, and no
/// other failure carries that code.
pub fn get_commit_diff(repo: &git2::Repository, commit_hash: &str) -> (r: AppResult<Vec<DiffInfo>>)
    ensures
        !is_oid_text(commit_hash@) ==> r is Err,
        match r {
            Ok(deltas) => forall|i: int| 0 <= i < deltas@.len() ==> (#[trigger] deltas@[i]).as_read(),
            Err(e) => if is_oid_text(commit_hash@) {
                e.is_store_failure() || e.code@ == "INTERNAL_ERROR"@
            } else {
                e.detailed("COMMIT_NOT_FOUND"@, "Commit não encontrado"@, commit_hash@)
            },
        },
{
    let id = match oid_from_hex(commit_hash) {
        Ok(id) => id,
        Err(_) => {
            return Err(AppError::commit_not_found(commit_hash));
        },
    };
    let commit = match find_commit(repo, id) {
        Ok(commit) => commit,
        Err(e) => {
            return Err(AppError::git_error(e));
        },
    };
    let tree = match commit_tree(&commit) {
        Ok(tree) => tree,
        Err(e) => {
            return Err(AppError::git_error(e));
        },
    };
    let parent_tree = match commit_parent(&commit, 0) {
        Ok(parent) => match commit_tree(&parent) {
            Ok(tree) => Some(tree),
            Err(_) => None,
        },
        Err(_) => None,
    };
    match diff_tree_to_tree(repo, parent_tree.as_ref(), Some(&tree), None) {
        Ok(diff) => parse_diff(&diff),
        Err(e) => Err(AppError::git_error(e)),
    }
}

/// Whether `record` lists `path` as new in the working tree.
pub open spec fn marks_untracked(record: StatusRecord, path: Seq<char>) -> bool {
    record.wt_new && match record.path {
        Some(p) => p@ == path,
        None => false,
    }
}

/// Whether some status entry lists `path` as new in the working tree.
pub open spec fn listed_untracked(records: Seq<StatusRecord>, path: Seq<char>) -> bool {
    exists|i: int| 0 <= i < records.len() && marks_untracked(#[trigger] records[i], path)
}

/// Whether some status entry lists `path` as new in the working tree.
pub fn is_untracked(records: &Vec<StatusRecord>, path: &str) -> (r: bool)
    ensures
        r == listed_untracked(records@, path@),
{
    let mut i: usize = 0;
    while i < records.len()
        invariant
            i <= records.len(),
            !listed_untracked(records@.take(i as int), path@),
        decreases records.len() - i,
    {
        let hit = records[i].wt_new && match &records[i].path {
            Some(p) => same_text(p.as_str(), path),
            None => false,
        };
        if hit {
            return true;
        }
        assert forall|k: int| 0 <= k < i + 1 implies !marks_untracked(
            #[trigger] records@.take(i + 1)[k],
            path@,
        ) by {
            if k < i {
                assert(records@.take(i as int)[k] == records@.take(i + 1)[k]);
            }
        }
        i = i + 1;
    }
    assert(records@.take(records.len() as int) =~= records@);
    false
}

/// Whether the diff of `file_path` has to be written from the file's own
/// text instead of asking the object store: so for an untracked path when
/// the working tree is asked for, and never for the staged side.
pub fn needs_worktree_text(repo: &git2::Repository, file_path: &str, staged: bool) -> (r: AppResult<bool>)
    ensures
        match r {
            Ok(needed) => staged ==> !needed,
            Err(e) => e.is_store_failure(),
        },
{
    match status_records(repo, true, false, false) {
        Ok(records) => Ok(is_untracked(&records, file_path) && !staged),
        Err(e) => Err(AppError::git_error(e)),
    }
}

/// The delta of an untracked file with text `content`: one hunk that adds
/// every line, numbered from one.
pub fn get_untracked_file_diff(file_path: &str, content: &str) -> (delta: DiffInfo)
    ensures
        delta.path@ == file_path@,
        delta.old_path is None,
        delta.status@ == "added"@,
        delta.additions == split_lines(content@).len(),
        delta.deletions == 0,
        !delta.is_binary,
        delta.well_formed(),
        delta.hunks@.len() == 1,
        delta.hunks@[0].header@ == header_text(0, 0, 1, split_lines(content@).len()),
        delta.hunks@[0].old_start == 0,
        delta.hunks@[0].old_lines == 0,
        delta.hunks@[0].new_start == 1,
        delta.hunks@[0].new_lines == split_lines(content@).len() as u32,
        delta.hunks@[0].lines@.len() == split_lines(content@).len(),
        forall|i: int|
            0 <= i < split_lines(content@).len() ==> {
                let line = #[trigger] delta.hunks@[0].lines@[i];
                &&& line.old_line is None
                &&& line.new_line == Some((i + 1) as u32)
                &&& line.content@ == split_lines(content@)[i]
                &&& line.origin == '+'
                &&& line.line_type == LineType::Addition
            },
{
    let chars = chars_of(content);
    let texts = lines_of(&chars);
    let n = texts.len();
    assert(n == split_lines(content@).len());
    let mut lines: Vec<LineInfo> = Vec::new();
    let mut i: usize = 0;
    while i < n
        invariant
            i <= n,
            n == texts.len(),
            rows(texts@) == split_lines(content@),
            lines@.len() == i,
            count_lines(lines@, LineType::Addition) == i,
            count_lines(lines@, LineType::Deletion) == 0,
            forall|k: int|
                0 <= k < i ==> {
                    let line = #[trigger] lines@[k];
                    &&& line.old_line is None
                    &&& line.new_line == Some((k + 1) as u32)
                    &&& line.content@ == split_lines(content@)[k]
                    &&& line.origin == '+'
                    &&& line.line_type == LineType::Addition
                },
        decreases n - i,
    {
        let number: u32 = #[verifier::truncate] ((i + 1) as u32);
        let ghost before = lines@;
        lines.push(
            LineInfo {
                old_line: None,
                new_line: Some(number),
                content: string_of(&texts[i]),
                origin: '+',
                line_type: LineType::Addition,
            },
        );
        assert(lines@.drop_last() =~= before);
        assert(rows(texts@)[i as int] == texts@[i as int]@);
        i = i + 1;
    }
    let mut header = String::new();
    assert(header@ + "@@ -"@ =~= "@@ -"@);
    header.push_str("@@ -");
    header.push_str(decimal_string(0).as_str());
    header.push_str(",");
    header.push_str(decimal_string(0).as_str());
    header.push_str(" +");
    header.push_str(decimal_string(1).as_str());
    header.push_str(",");
    header.push_str(decimal_string(n as u64).as_str());
    header.push_str(" @@");
    let ghost all = lines@;
    let hunk = HunkInfo {
        header,
        old_start: 0,
        old_lines: 0,
        new_start: 1,
        new_lines: #[verifier::truncate] (n as u32),
        lines,
    };
    assert(hunk.well_formed());
    let mut hunks: Vec<HunkInfo> = Vec::new();
    hunks.push(hunk);
    assert(hunks@.drop_last() =~= Seq::<HunkInfo>::empty());
    assert(count_hunks(hunks@.drop_last(), LineType::Addition) == 0);
    assert(count_hunks(hunks@.drop_last(), LineType::Deletion) == 0);
    assert(hunks@.last().lines@ == all);
    DiffInfo {
        path: file_path.to_owned(),
        old_path: None,
        status: "added".to_owned(),
        additions: n,
        deletions: 0,
        is_binary: false,
        hunks,
    }
}

/// Whether some delta is listed under `path`.
pub open spec fn lists_path(deltas: Seq<DiffInfo>, path: Seq<char>) -> bool {
    exists|i: int| 0 <= i < deltas.len() && (#[trigger] deltas[i]).path@ == path
}

/// The first delta listed under `file_path`; `FILE_NOT_IN_DIFF` when there
/// is none.
pub fn find_file_diff(deltas: Vec<DiffInfo>, file_path: &str) -> (r: AppResult<DiffInfo>)
    ensures
        match r {
            Ok(delta) => exists|i: int|
                0 <= i < deltas@.len() && delta == #[trigger] deltas@[i] && delta.path@ == file_path@
                    && !lists_path(deltas@.take(i), file_path@),
            Err(e) => !lists_path(deltas@, file_path@) && e.detailed(
                "FILE_NOT_IN_DIFF"@,
                "Arquivo não encontrado no diff"@,
                file_path@,
            ),
        },
{
    let ghost all = deltas@;
    let mut rest = deltas;
    let mut i: usize = 0;
    while i < rest.len()
        invariant
            i <= rest.len(),
            rest@ == all,
            all == deltas@,
            !lists_path(all.take(i as int), file_path@),
        decreases rest.len() - i,
    {
        if same_text(rest[i].path.as_str(), file_path) {
            let found = rest.remove(i);
            assert(found == all[i as int]);
            assert(exists|k: int|
                0 <= k < all.len() && found == #[trigger] all[k] && found.path@ == file_path@
                    && !lists_path(all.take(k), file_path@)) by {
                assert(found == all[i as int] && !lists_path(all.take(i as int), file_path@));
            }
            return Ok(found);
        }
        assert forall|k: int| 0 <= k < i + 1 implies (#[trigger] all.take(i + 1)[k]).path@
            != file_path@ by {
            if k < i {
                assert(all.take(i as int)[k] == all.take(i + 1)[k]);
            }
        }
        i = i + 1;
    }
    assert(all.take(rest.len() as int) =~= all);
    Err(AppError::with_details("FILE_NOT_IN_DIFF", "Arquivo não encontrado no diff", file_path))
}

/// The delta of one tracked path: `HEAD` against the index when `staged`,
/// the index against the working tree otherwise. Fails with
/// `FILE_NOT_IN_DIFF` when the comparison lists nothing under that path.
/// A path that holds a NUL character names no file: `INTERNAL_ERROR`, and
/// the store is not asked.
pub fn get_file_diff(repo: &git2::Repository, file_path: &str, staged: bool) -> (r: AppResult<DiffInfo>)
    ensures
        file_path@.contains('\0') ==> (r matches Err(e) && e.plain(
            "INTERNAL_ERROR"@,
            "Path holds a NUL character"@,
        )),
        match r {
            Ok(delta) => delta.as_read() && delta.path@ == file_path@,
            Err(e) => e.is_store_failure() || e.code@ == "INTERNAL_ERROR"@ || e.detailed(
                "FILE_NOT_IN_DIFF"@,
                "Arquivo não encontrado no diff"@,
                file_path@,
            ),
        },
{
    let mut options = match file_diff_options(file_path) {
        Ok(options) => options,
        Err(e) => {
            return Err(e);
        },
    };
    let made = match plan_file_diff(staged) {
        FileSides::HeadToIndex => {
            let tree = head_tree(repo);
            diff_tree_to_index(repo, tree.as_ref(), None, Some(&mut options))
        },
        FileSides::IndexToWorkdir => match index(repo) {
            Ok(current) => diff_index_to_workdir(repo, Some(&current), Some(&mut options)),
            Err(e) => Err(e),
        },
    };
    let diff = match made {
        Ok(diff) => diff,
        Err(e) => {
            return Err(AppError::git_error(e));
        },
    };
    match parse_diff(&diff) {
        Ok(deltas) => find_file_diff(deltas, file_path),
        Err(e) => Err(e),
    }
}

/// Who last changed one line, and when.
#[derive(Debug, Clone)]
pub struct BlameInfo {
    pub line: u32,
    pub commit_hash: String,
    pub author: String,
    pub date: i64,
}

/// How many lines the first `upto` blame hunks span together.
pub open spec fn lines_before(records: Seq<BlameRecord>, upto: int) -> nat
    decreases upto,
{
    if upto <= 0 {
        0
    } else {
        lines_before(records, upto - 1) + records[upto - 1].lines as nat
    }
}

/// The position, counted from zero, of line `offset` of hunk `hunk`.
pub open spec fn blame_slot(records: Seq<BlameRecord>, hunk: int, offset: int) -> int {
    lines_before(records, hunk) + offset
}

impl BlameInfo {
    /// The entry attributes line `line` to the commit, author and time of
    /// `record`.
    pub open spec fn attributes(self, record: BlameRecord, line: int) -> bool {
        &&& self.line == line
        &&& self.commit_hash@ == head_chars(record.commit@, 7)
        &&& self.author@ == match record.author {
            Some(name) => name@,
            None => Seq::empty(),
        }
        &&& self.date == record.seconds
    }
}

/// One entry per line, in file order and numbered from one, each line
/// attributed to the hunk that covers it. Fails with `INTERNAL_ERROR` only
/// when there are more lines than a line number can count.
pub fn expand_blame(records: &Vec<BlameRecord>) -> (r: AppResult<Vec<BlameInfo>>)
    ensures
        match r {
            Ok(out) => {
                &&& out@.len() == lines_before(records@, records@.len() as int)
                &&& forall|h: int, j: int|
                    0 <= h < records@.len() && 0 <= j < records@[h].lines ==> (#[trigger] out@[blame_slot(
                        records@,
                        h,
                        j,
                    )]).attributes(records@[h], blame_slot(records@, h, j) + 1)
            },
            Err(e) => {
                &&& lines_before(records@, records@.len() as int) > u32::MAX
                &&& e.plain("INTERNAL_ERROR"@, "Line number out of range"@)
            },
        },
{
    let mut out: Vec<BlameInfo> = Vec::new();
    let mut h: usize = 0;
    while h < records.len()
        invariant
            h <= records.len(),
            out@.len() == lines_before(records@, h as int),
            out@.len() <= u32::MAX,
            forall|a: int, b: int|
                0 <= a < h && 0 <= b < records@[a].lines ==> (#[trigger] out@[blame_slot(
                    records@,
                    a,
                    b,
                )]).attributes(records@[a], blame_slot(records@, a, b) + 1),
        decreases records.len() - h,
    {
        let record = &records[h];
        let mut j: usize = 0;
        while j < record.lines
            invariant
                h < records.len(),
                *record == records@[h as int],
                j <= record.lines,
                out@.len() == lines_before(records@, h as int) + j,
                out@.len() <= u32::MAX,
                forall|a: int, b: int|
                    0 <= a < h && 0 <= b < records@[a].lines ==> (#[trigger] out@[blame_slot(
                        records@,
                        a,
                        b,
                    )]).attributes(records@[a], blame_slot(records@, a, b) + 1),
                forall|b: int|
                    0 <= b < j ==> (#[trigger] out@[blame_slot(records@, h as int, b)]).attributes(
                        records@[h as int],
                        blame_slot(records@, h as int, b) + 1,
                    ),
            decreases record.lines - j,
        {
            if out.len() >= u32::MAX as usize {
                proof {
                    lemma_lines_before_grows(records@, h + 1, records@.len() as int);
                }
                return Err(AppError::internal("Line number out of range"));
            }
            let line: u32 = (out.len() + 1) as u32;
            let author = match &record.author {
                Some(name) => name.clone(),
                None => String::new(),
            };
            let ghost before = out@;
            out.push(
                BlameInfo {
                    line,
                    commit_hash: take_chars(record.commit.as_str(), 7),
                    author,
                    date: record.seconds,
                },
            );
            proof {
                assert forall|a: int, b: int| 0 <= a < h && 0 <= b < records@[a].lines implies (
                #[trigger] out@[blame_slot(records@, a, b)]).attributes(
                    records@[a],
                    blame_slot(records@, a, b) + 1,
                ) by {
                    lemma_lines_before_grows(records@, a + 1, h as int);
                    assert(out@[blame_slot(records@, a, b)] == before[blame_slot(records@, a, b)]);
                }
                assert forall|b: int| 0 <= b < j + 1 implies (#[trigger] out@[blame_slot(
                    records@,
                    h as int,
                    b,
                )]).attributes(records@[h as int], blame_slot(records@, h as int, b) + 1) by {
                    if b < j {
                        assert(out@[blame_slot(records@, h as int, b)] == before[blame_slot(
                            records@,
                            h as int,
                            b,
                        )]);
                    }
                }
            }
            j = j + 1;
        }
        h = h + 1;
    }
    Ok(out)
}

/// The lines of more hunks are at least the lines of fewer.
pub proof fn lemma_lines_before_grows(records: Seq<BlameRecord>, fewer: int, more: int)
    requires
        fewer <= more,
    ensures
        lines_before(records, fewer) <= lines_before(records, more),
    decreases more - fewer,
{
    if fewer < more {
        lemma_lines_before_grows(records, fewer, more - 1);
    }
}

/// One entry per line of the file at `file_path`, in file order and
/// numbered from one, each with the commit, author and time of the blame
/// hunk that covers it.
pub fn get_file_blame(repo: &git2::Repository, file_path: &str) -> (r: AppResult<Vec<BlameInfo>>)
    ensures
        match r {
            Ok(out) => forall|i: int| 0 <= i < out@.len() ==> (#[trigger] out@[i]).line == i + 1,
            Err(e) => e.is_store_failure() || e.code@ == "INTERNAL_ERROR"@,
        },
{
    match blame_records(repo, file_path) {
        Ok(records) => {
            let r = expand_blame(&records);
            proof {
                if r is Ok {
                    let out = r->Ok_0;
                    assert forall|i: int| 0 <= i < out@.len() implies (#[trigger] out@[i]).line == i
                        + 1 by {
                        lemma_blame_slot_covers(records@, i);
                    }
                }
            }
            r
        },
        Err(e) => Err(AppError::git_error(e)),
    }
}

/// Every position below the total is line `offset` of some hunk.
pub proof fn lemma_blame_slot_covers(records: Seq<BlameRecord>, position: int)
    requires
        0 <= position < lines_before(records, records.len() as int),
    ensures
        exists|h: int, j: int|
            0 <= h < records.len() && 0 <= j < records[h].lines && #[trigger] blame_slot(records, h, j)
                == position,
{
    lemma_slot_search(records, records.len() as int, position);
}

proof fn lemma_slot_search(records: Seq<BlameRecord>, upto: int, position: int)
    requires
        0 <= upto <= records.len(),
        0 <= position < lines_before(records, upto),
    ensures
        exists|h: int, j: int|
            0 <= h < upto && 0 <= j < records[h].lines && #[trigger] blame_slot(records, h, j)
                == position,
    decreases upto,
{
    if position >= lines_before(records, upto - 1) {
        let h = upto - 1;
        let j = position - lines_before(records, upto - 1);
        assert(blame_slot(records, h, j) == position);
    } else {
        lemma_slot_search(records, upto - 1, position);
    }
}

} // verus!
