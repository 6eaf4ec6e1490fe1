//! Reading comparisons out of the object store: deltas, hunks and lines are
//! copied into plain records as soon as they are fetched.

use vstd::prelude::*;

verus! {

/// How the object store labels one changed entry.
#[derive(Debug, Clone, Copy, PartialEq, Eq, Structural)]
pub enum DeltaStatus {
    Unmodified,
    Added,
    Deleted,
    Modified,
    Renamed,
    Copied,
    Ignored,
    Untracked,
    Typechange,
    Unreadable,
    Conflicted,
}

/// One changed entry of a comparison, as the object store reports it.
#[derive(Debug, Clone)]
pub struct DeltaRecord {
    pub old_path: Option<String>,
    pub new_path: Option<String>,
    pub status: DeltaStatus,
    pub is_binary: bool,
}

/// The line ranges of one hunk.
#[derive(Debug, Clone, Copy)]
pub struct HunkRecord {
    pub old_start: u32,
    pub old_lines: u32,
    pub new_start: u32,
    pub new_lines: u32,
}

/// One line of a hunk: its origin sigil, its line numbers and its raw bytes.
#[derive(Debug, Clone)]
pub struct LineRecord {
    pub origin: char,
    pub old_lineno: Option<u32>,
    pub new_lineno: Option<u32>,
    pub content: Vec<u8>,
}

/// The text that `String::from_utf8_lossy` decodes from `bytes`: valid
/// sequences decode as UTF-8, each invalid one becomes U+FFFD.
pub uninterp spec fn utf8_lossy(bytes: Seq<u8>) -> Seq<char>;

/// `String::from_utf8_lossy`, owned.
#[verifier::external_body]
pub(crate) fn lossy_text(bytes: &Vec<u8>) -> (s: String)
    ensures
        s@ == utf8_lossy(bytes@),
{
    String::from_utf8_lossy(bytes).to_string()
}

/// What a comparison lists of one entry for as long as it lives: the old
/// path and the new path.
pub type DeltaKey = (Option<Seq<char>>, Option<Seq<char>>);

/// What `record` says of the paths of its entry.
pub open spec fn key_of(record: DeltaRecord) -> DeltaKey {
    (
        match record.old_path {
            Some(path) => Some(path@),
            None => None,
        },
        match record.new_path {
            Some(path) => Some(path@),
            None => None,
        },
    )
}

/// The entries that a comparison holds, in its order: of each the two
/// paths, lossily decoded. The status and the binary flag of an entry are
/// not among them: the object library may change both when it first
/// loads the content.
pub uninterp spec fn diff_entries(diff: git2::Diff<'_>) -> Seq<DeltaKey>;

/// `git2::Diff::deltas().len()`: how many entries the comparison holds.
#[verifier::external_body]
pub(crate) fn delta_count(diff: &git2::Diff<'_>) -> (n: usize)
    ensures
        n == diff_entries(*diff).len(),
{
    diff.deltas().len()
}

/// `git2::DiffDelta::status`, one variant for one.
#[verifier::external_body]
pub(crate) fn delta_status(status: git2::Delta) -> (s: DeltaStatus) {
    match status {
        git2::Delta::Unmodified => DeltaStatus::Unmodified,
        git2::Delta::Added => DeltaStatus::Added,
        git2::Delta::Deleted => DeltaStatus::Deleted,
        git2::Delta::Modified => DeltaStatus::Modified,
        git2::Delta::Renamed => DeltaStatus::Renamed,
        git2::Delta::Copied => DeltaStatus::Copied,
        git2::Delta::Ignored => DeltaStatus::Ignored,
        git2::Delta::Untracked => DeltaStatus::Untracked,
        git2::Delta::Typechange => DeltaStatus::Typechange,
        git2::Delta::Unreadable => DeltaStatus::Unreadable,
        git2::Delta::Conflicted => DeltaStatus::Conflicted,
    }
}

/// `git2::Diff::get_delta`: the entry at position `i`, copied out with the
/// bytes of both paths (`git2::DiffFile::path_bytes`) lossily decoded, its
/// status and its binary flag as they stand at the time of the call.
/// There is an entry at every position below the count and at no other.
#[verifier::external_body]
pub(crate) fn delta_at(diff: &git2::Diff<'_>, i: usize) -> (d: Option<DeltaRecord>)
    ensures
        match d {
            Some(record) => i < diff_entries(*diff).len() && key_of(record) == diff_entries(*diff)[i as int],
            None => i >= diff_entries(*diff).len(),
        },
{
    let delta = diff.get_delta(i)?;
    Some(DeltaRecord {
        old_path: delta.old_file().path_bytes().map(|p| String::from_utf8_lossy(p).to_string()),
        new_path: delta.new_file().path_bytes().map(|p| String::from_utf8_lossy(p).to_string()),
        status: delta_status(delta.status()),
        is_binary: delta.flags().is_binary(),
    })
}

/// `git2::Patch::from_diff`: the patch of the entry at position `i`, if the
/// store produces one.
#[verifier::external_body]
pub(crate) fn patch_at<'a>(diff: &git2::Diff<'a>, i: usize) -> (p: Result<Option<git2::Patch<'a>>, git2::Error>) {
    git2::Patch::from_diff(diff, i)
}

/// What a patch lists of one line: its origin sigil, its number on the old
/// side, its number on the new side, and its raw bytes.
pub type LineKey = (char, Option<u32>, Option<u32>, Seq<u8>);

/// What `record` says of its line.
pub open spec fn line_key(record: LineRecord) -> LineKey {
    (record.origin, record.old_lineno, record.new_lineno, record.content@)
}

/// The line ranges of the hunks that a patch holds, in its order.
pub uninterp spec fn patch_hunks(patch: git2::Patch<'_>) -> Seq<HunkRecord>;

/// The lines that hunk `hunk` of a patch holds, in their order.
pub uninterp spec fn patch_lines(patch: git2::Patch<'_>, hunk: int) -> Seq<LineKey>;

/// `git2::Patch::num_hunks`.
#[verifier::external_body]
pub(crate) fn hunk_count(patch: &git2::Patch<'_>) -> (n: usize)
    ensures
        n == patch_hunks(*patch).len(),
{
    patch.num_hunks()
}

/// `git2::Patch::hunk`: the line ranges of hunk `i`. It fails exactly for
/// a position at which the patch has no hunk.
#[verifier::external_body]
pub(crate) fn hunk_at(patch: &git2::Patch<'_>, i: usize) -> (h: Result<HunkRecord, git2::Error>)
    ensures
        match h {
            Ok(record) => i < patch_hunks(*patch).len() && record == patch_hunks(*patch)[i as int],
            Err(_) => i >= patch_hunks(*patch).len(),
        },
{
    let (hunk, _) = patch.hunk(i)?;
    Ok(HunkRecord {
        old_start: hunk.old_start(),
        old_lines: hunk.old_lines(),
        new_start: hunk.new_start(),
        new_lines: hunk.new_lines(),
    })
}

/// The most lines of a hunk that the object library's counter holds.
pub const MAX_COUNTED_LINES: usize = 0x7fff_ffff;

/// `git2::Patch::num_lines_in_hunk`: where the patch has the hunk and the
/// number of its lines fits the object library's counter, that number. It
/// fails only where the patch has no such hunk or the number does not
/// fit.
#[verifier::external_body]
pub(crate) fn line_count(patch: &git2::Patch<'_>, hunk: usize) -> (n: Result<usize, git2::Error>)
    ensures
        match n {
            Ok(count) => hunk < patch_hunks(*patch).len() && (patch_lines(*patch, hunk as int).len()
                <= MAX_COUNTED_LINES ==> count == patch_lines(*patch, hunk as int).len()),
            Err(_) => hunk >= patch_hunks(*patch).len() || patch_lines(*patch, hunk as int).len()
                > MAX_COUNTED_LINES,
        },
{
    patch.num_lines_in_hunk(hunk)
}

/// `git2::Patch::line_in_hunk`: line `line` of hunk `hunk`, copied out.
/// It answers only for a line that the hunk holds.
#[verifier::external_body]
pub(crate) fn line_at(patch: &git2::Patch<'_>, hunk: usize, line: usize) -> (l: Result<LineRecord, git2::Error>)
    ensures
        l matches Ok(record) ==> {
            &&& hunk < patch_hunks(*patch).len()
            &&& line < patch_lines(*patch, hunk as int).len()
            &&& line_key(record) == patch_lines(*patch, hunk as int)[line as int]
        },
{
    let found = patch.line_in_hunk(hunk, line)?;
    Ok(LineRecord {
        origin: found.origin(),
        old_lineno: found.old_lineno(),
        new_lineno: found.new_lineno(),
        content: found.content().to_vec(),
    })
}

/// Whether a comparison with these options was told to list untracked
/// files.
pub uninterp spec fn takes_untracked(options: git2::DiffOptions) -> bool;

/// The path patterns that these options were given to limit a comparison
/// to, in the order they were given; none when it is not limited.
pub uninterp spec fn given_patterns(options: git2::DiffOptions) -> Seq<Seq<char>>;

/// `git2::DiffOptions::new`: the default options, without untracked files
/// and not limited to any path.
#[verifier::external_body]
pub(crate) fn diff_options() -> (options: git2::DiffOptions)
    ensures
        !takes_untracked(options),
        given_patterns(options) == Seq::<Seq<char>>::empty(),
{
    git2::DiffOptions::new()
}

/// `git2::DiffOptions::include_untracked`: sets whether untracked files
/// are listed; the patterns stay as they are.
#[verifier::external_body]
pub(crate) fn include_untracked(options: &mut git2::DiffOptions, untracked: bool)
    ensures
        takes_untracked(*final(options)) == untracked,
        given_patterns(*final(options)) == given_patterns(*old(options)),
{
    options.include_untracked(untracked);
}

/// `git2::DiffOptions::pathspec`: adds one path pattern; the flags stay as
/// they are. The object library aborts on a pattern that holds a NUL
/// character.
#[verifier::external_body]
pub(crate) fn add_pathspec(options: &mut git2::DiffOptions, pathspec: &str)
    requires
        !pathspec@.contains('\0'),
    ensures
        given_patterns(*final(options)) == given_patterns(*old(options)).push(pathspec@),
        takes_untracked(*final(options)) == takes_untracked(*old(options)),
{
    options.pathspec(pathspec);
}

/// `git2::Repository::diff_tree_to_workdir_with_index`.
#[verifier::external_body]
pub(crate) fn diff_tree_to_workdir_with_index<'r>(
    repo: &'r git2::Repository,
    tree: Option<&git2::Tree<'_>>,
    options: Option<&mut git2::DiffOptions>,
) -> (r: Result<git2::Diff<'r>, git2::Error>) {
    repo.diff_tree_to_workdir_with_index(tree, options)
}

/// `git2::Repository::diff_tree_to_index`.
#[verifier::external_body]
pub(crate) fn diff_tree_to_index<'r>(
    repo: &'r git2::Repository,
    tree: Option<&git2::Tree<'_>>,
    index: Option<&git2::Index>,
    options: Option<&mut git2::DiffOptions>,
) -> (r: Result<git2::Diff<'r>, git2::Error>) {
    repo.diff_tree_to_index(tree, index, options)
}

/// `git2::Repository::diff_tree_to_tree`.
#[verifier::external_body]
pub(crate) fn diff_tree_to_tree<'r>(
    repo: &'r git2::Repository,
    old: Option<&git2::Tree<'_>>,
    new: Option<&git2::Tree<'_>>,
    options: Option<&mut git2::DiffOptions>,
) -> (r: Result<git2::Diff<'r>, git2::Error>) {
    repo.diff_tree_to_tree(old, new, options)
}

/// `git2::Repository::diff_index_to_workdir`.
#[verifier::external_body]
pub(crate) fn diff_index_to_workdir<'r>(
    repo: &'r git2::Repository,
    index: Option<&git2::Index>,
    options: Option<&mut git2::DiffOptions>,
) -> (r: Result<git2::Diff<'r>, git2::Error>) {
    repo.diff_index_to_workdir(index, options)
}

/// What the blame of one run of lines says: the commit that last changed
/// them, as forty hexadecimal digits, its author's name if it is valid
/// UTF-8, its time in seconds, and how many lines the run spans.
#[derive(Debug, Clone)]
pub struct BlameRecord {
    pub commit: String,
    pub author: Option<String>,
    pub seconds: i64,
    pub lines: usize,
}

/// One `git2::BlameHunk`, copied out.
#[verifier::external_body]
pub(crate) fn blame_record(hunk: &git2::BlameHunk<'_>) -> (record: BlameRecord)
    ensures
        record.commit@.len() == 40,
{
    let signature = hunk.final_signature();
    BlameRecord {
        commit: hunk.final_commit_id().to_string(),
        author: signature.name().map(String::from),
        seconds: signature.when().seconds(),
        lines: hunk.lines_in_hunk(),
    }
}

/// `git2::Repository::blame_file` with default options; the hunks are
/// copied out in file order.
#[verifier::external_body]
pub(crate) fn blame_records(repo: &git2::Repository, path: &str) -> (r: Result<
    Vec<BlameRecord>,
    git2::Error,
>)
    ensures
        r matches Ok(records) ==> forall|i: int|
            0 <= i < records@.len() ==> (#[trigger] records@[i]).commit@.len() == 40,
{
    let blame = repo.blame_file(std::path::Path::new(path), None)?;
    Ok(blame.iter().map(|hunk| blame_record(&hunk)).collect())
}

} // verus!
