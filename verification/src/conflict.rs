//! The conflict engine: scans a file's text for conflict markers and
//! returns the conflict sections together with the two sides of the
//! document.

use vstd::prelude::*;
use crate::error::AppError;
use crate::error::AppResult;
use crate::store::commits::commit_as_object;
use crate::store::paths::joined;
use crate::store::paths::path_join;
use crate::store::refs::head;
use crate::store::refs::peel_to_commit;
use crate::store::repos::repo_workdir;
use crate::store::worktree::cleanup_state;
use crate::store::worktree::index;
use crate::store::worktree::index_add_path;
use crate::store::worktree::index_write;
use crate::store::worktree::repo_state;
use crate::store::worktree::RepoState;
use crate::store::worktree::reset;
use crate::store::worktree::ResetMode;
use crate::text::chars_of;
use crate::text::join;
use crate::text::join_lines;
use crate::text::lines_of;
use crate::text::rows;
use crate::text::slice_chars;
use crate::text::split_lines;

verus! {

/// One conflict of a file: its number in document order, the text of
/// each side, the base text when the markers carry one, and the numbers of
/// the lines that hold its opening and closing markers.
#[derive(Debug, Clone)]
pub struct ConflictSection {
    pub id: usize,
    pub ours: String,
    pub theirs: String,
    pub base: Option<String>,
    pub start_line: usize,
    pub end_line: usize,
}

/// The conflicts of one file, and the file as each side would have it.
#[derive(Debug, Clone)]
pub struct ConflictInfo {
    pub path: String,
    pub ours_content: String,
    pub theirs_content: String,
    pub base_content: Option<String>,
    pub conflicts: Vec<ConflictSection>,
}

/// Where the scan stands: outside any conflict, or in one of the three
/// regions of a conflict.
#[derive(Debug, Clone, Copy, PartialEq, Eq, Structural)]
pub enum Region {
    Clean,
    InOurs,
    InBase,
    InTheirs,
}

/// How long a marker is.
pub const MARKER_LEN: usize = 7;

/// Whether `line` begins with the marker made of `sign`.
pub open spec fn is_marker(line: Seq<char>, sign: char) -> bool {
    &&& line.len() >= MARKER_LEN
    &&& forall|i: int| 0 <= i < MARKER_LEN ==> line[i] == sign
}

/// Whether `line` begins with none of the four markers.
pub open spec fn is_text_line(line: Seq<char>) -> bool {
    &&& !is_marker(line, '<')
    &&& !is_marker(line, '|')
    &&& !is_marker(line, '=')
    &&& !is_marker(line, '>')
}

/// One conflict, as the scan reports it: its number in document order, the
/// text of each side, the base text when the conflict carries one, and the
/// numbers of the lines that hold its opening and closing markers.
#[verifier::ext_equal]
pub struct SectionModel {
    pub id: nat,
    pub ours: Seq<char>,
    pub theirs: Seq<char>,
    pub base: Option<Seq<char>>,
    pub start_line: nat,
    pub end_line: nat,
}

/// The state of the scan: the region, the lines gathered for the conflict
/// in progress, the line that opened it, the sections closed so far, and
/// the two sides of the document so far.
#[verifier::ext_equal]
pub struct ScanState {
    pub region: Region,
    pub ours: Seq<Seq<char>>,
    pub base: Option<Seq<Seq<char>>>,
    pub theirs: Seq<Seq<char>>,
    pub start: nat,
    pub sections: Seq<SectionModel>,
    pub ours_doc: Seq<Seq<char>>,
    pub theirs_doc: Seq<Seq<char>>,
}

/// The state before the first line.
pub open spec fn scan_start() -> ScanState {
    ScanState {
        region: Region::Clean,
        ours: seq![],
        base: None,
        theirs: seq![],
        start: 0,
        sections: seq![],
        ours_doc: seq![],
        theirs_doc: seq![],
    }
}

/// The section that closes at line `index`.
pub open spec fn closed_section(st: ScanState, index: nat) -> SectionModel {
    SectionModel {
        id: st.sections.len(),
        ours: join_lines(st.ours),
        theirs: join_lines(st.theirs),
        base: match st.base {
            Some(lines) => Some(join_lines(lines)),
            None => None,
        },
        start_line: st.start,
        end_line: index,
    }
}

/// One transition of the scan, on the line with number `index`.
///
/// An opening marker starts a conflict from anywhere and empties what was
/// gathered. Inside a conflict, a base marker switches to the base region,
/// a divider to the incoming region, and a closing marker emits the
/// section, appends the gathered lines of each side to that side of the
/// document, and ends the conflict. Any other line joins the region it
/// stands in; outside a conflict it joins both sides of the document.
pub open spec fn scan_step(st: ScanState, line: Seq<char>, index: nat) -> ScanState {
    if is_marker(line, '<') {
        ScanState { region: Region::InOurs, ours: seq![], base: None, theirs: seq![], start: index, ..st }
    } else if st.region != Region::Clean && is_marker(line, '|') {
        ScanState {
            region: Region::InBase,
            base: match st.base {
                Some(lines) => Some(lines),
                None => Some(seq![]),
            },
            ..st
        }
    } else if st.region != Region::Clean && is_marker(line, '=') {
        ScanState { region: Region::InTheirs, ..st }
    } else if st.region != Region::Clean && is_marker(line, '>') {
        ScanState {
            region: Region::Clean,
            sections: st.sections.push(closed_section(st, index)),
            ours_doc: st.ours_doc + st.ours,
            theirs_doc: st.theirs_doc + st.theirs,
            ..st
        }
    } else {
        match st.region {
            Region::Clean => ScanState {
                ours_doc: st.ours_doc.push(line),
                theirs_doc: st.theirs_doc.push(line),
                ..st
            },
            Region::InOurs => ScanState { ours: st.ours.push(line), ..st },
            Region::InBase => ScanState {
                base: match st.base {
                    Some(lines) => Some(lines.push(line)),
                    None => Some(seq![line]),
                },
                ..st
            },
            Region::InTheirs => ScanState { theirs: st.theirs.push(line), ..st },
        }
    }
}

/// The state after scanning `lines` from state `st`, the first of them
/// having number `offset`.
pub open spec fn scan_from(st: ScanState, lines: Seq<Seq<char>>, offset: nat) -> ScanState
    decreases lines.len(),
{
    if lines.len() == 0 {
        st
    } else {
        scan_step(
            scan_from(st, lines.drop_last(), offset),
            lines.last(),
            (offset + lines.len() - 1) as nat,
        )
    }
}

/// The state after scanning a whole document.
pub open spec fn scan(lines: Seq<Seq<char>>) -> ScanState {
    scan_from(scan_start(), lines, 0)
}

/// The state after scanning the lines of `content`.
pub open spec fn scan_text(content: Seq<char>) -> ScanState {
    scan(split_lines(content))
}

impl ConflictSection {
    /// The section as the scan reports it.
    pub open spec fn view(self) -> SectionModel {
        SectionModel {
            id: self.id as nat,
            ours: self.ours@,
            theirs: self.theirs@,
            base: match self.base {
                Some(text) => Some(text@),
                None => None,
            },
            start_line: self.start_line as nat,
            end_line: self.end_line as nat,
        }
    }
}

/// The sections as the scan reports them.
pub open spec fn sections_view(sections: Seq<ConflictSection>) -> Seq<SectionModel> {
    Seq::new(sections.len(), |i: int| sections[i].view())
}

/// A scan in progress: the state machine that `parse_conflict_markers`
/// runs, to be fed one line at a time.
pub struct ConflictScanner {
    region: Region,
    ours: Vec<Vec<char>>,
    base: Option<Vec<Vec<char>>>,
    theirs: Vec<Vec<char>>,
    start: usize,
    sections: Vec<ConflictSection>,
    ours_doc: Vec<Vec<char>>,
    theirs_doc: Vec<Vec<char>>,
}

impl ConflictScanner {
    /// The state of the scan.
    pub closed spec fn view(self) -> ScanState {
        ScanState {
            region: self.region,
            ours: rows(self.ours@),
            base: match self.base {
                Some(lines) => Some(rows(lines@)),
                None => None,
            },
            theirs: rows(self.theirs@),
            start: self.start as nat,
            sections: sections_view(self.sections@),
            ours_doc: rows(self.ours_doc@),
            theirs_doc: rows(self.theirs_doc@),
        }
    }
}

/// Whether `line` begins with the marker made of `sign`.
pub fn starts_with_marker(line: &Vec<char>, sign: char) -> (r: bool)
    ensures
        r == is_marker(line@, sign),
{
    if line.len() < MARKER_LEN {
        return false;
    }
    let mut i: usize = 0;
    while i < MARKER_LEN
        invariant
            i <= MARKER_LEN,
            line.len() >= MARKER_LEN,
            forall|k: int| 0 <= k < i ==> line@[k] == sign,
        decreases MARKER_LEN - i,
    {
        if line[i] != sign {
            return false;
        }
        i = i + 1;
    }
    true
}

fn copy_line(line: &Vec<char>) -> (out: Vec<char>)
    ensures
        out@ == line@,
{
    let out = slice_chars(line, 0, line.len());
    assert(out@ =~= line@);
    out
}

fn append_lines(dst: &mut Vec<Vec<char>>, src: &Vec<Vec<char>>)
    ensures
        rows(final(dst)@) == rows(old(dst)@) + rows(src@),
{
    let mut i: usize = 0;
    assert(rows(dst@) =~= rows(old(dst)@) + rows(src@.take(0)));
    while i < src.len()
        invariant
            i <= src.len(),
            rows(dst@) == rows(old(dst)@) + rows(src@.take(i as int)),
        decreases src.len() - i,
    {
        let ghost before = rows(dst@);
        dst.push(copy_line(&src[i]));
        assert(rows(dst@) =~= before.push(src@[i as int]@));
        assert(rows(src@.take(i + 1)) =~= rows(src@.take(i as int)).push(src@[i as int]@));
        i = i + 1;
    }
    assert(src@.take(src.len() as int) =~= src@);
}

fn push_line(dst: &mut Vec<Vec<char>>, line: Vec<char>)
    ensures
        rows(final(dst)@) == rows(old(dst)@).push(line@),
{
    dst.push(line);
    assert(rows(dst@) =~= rows(old(dst)@).push(line@));
}

impl ConflictScanner {
    /// A scan that has seen no line yet.
    pub fn new() -> (s: ConflictScanner)
        ensures
            s.view() == scan_start(),
    {
        let s = ConflictScanner {
            region: Region::Clean,
            ours: Vec::new(),
            base: None,
            theirs: Vec::new(),
            start: 0,
            sections: Vec::new(),
            ours_doc: Vec::new(),
            theirs_doc: Vec::new(),
        };
        assert(s.view() =~= scan_start());
        s
    }

    fn close(&mut self, index: usize)
        ensures
            final(self).view() == (ScanState {
                region: Region::Clean,
                sections: old(self).view().sections.push(closed_section(old(self).view(), index as nat)),
                ours_doc: old(self).view().ours_doc + old(self).view().ours,
                theirs_doc: old(self).view().theirs_doc + old(self).view().theirs,
                ..old(self).view()
            }),
    {
        let section = ConflictSection {
            id: self.sections.len(),
            ours: join(&self.ours),
            theirs: join(&self.theirs),
            base: match &self.base {
                Some(lines) => Some(join(lines)),
                None => None,
            },
            start_line: self.start,
            end_line: index,
        };
        assert(section.view() =~= closed_section(old(self).view(), index as nat));
        self.sections.push(section);
        assert(sections_view(self.sections@) =~= sections_view(old(self).sections@).push(section.view()));
        append_lines(&mut self.ours_doc, &self.ours);
        append_lines(&mut self.theirs_doc, &self.theirs);
        self.region = Region::Clean;
        assert(self.view() =~= (ScanState {
            region: Region::Clean,
            sections: old(self).view().sections.push(closed_section(old(self).view(), index as nat)),
            ours_doc: old(self).view().ours_doc + old(self).view().ours,
            theirs_doc: old(self).view().theirs_doc + old(self).view().theirs,
            ..old(self).view()
        }));
    }

    /// Where the scan stands.
    pub fn region(&self) -> (region: Region)
        ensures
            region == self.view().region,
    {
        self.region
    }

    /// How many sections the scan has closed.
    pub fn section_count(&self) -> (count: usize)
        ensures
            count == self.view().sections.len(),
    {
        self.sections.len()
    }

    /// One transition: the scan takes in the line with number `index`.
    pub fn step(&mut self, line: Vec<char>, index: usize)
        ensures
            final(self).view() == scan_step(old(self).view(), line@, index as nat),
    {
        let in_conflict = self.region != Region::Clean;
        if starts_with_marker(&line, '<') {
            self.region = Region::InOurs;
            self.ours = Vec::new();
            self.base = None;
            self.theirs = Vec::new();
            self.start = index;
            assert(self.view() =~= scan_step(old(self).view(), line@, index as nat));
        } else if in_conflict && starts_with_marker(&line, '|') {
            self.region = Region::InBase;
            if self.base.is_none() {
                self.base = Some(Vec::new());
            }
            assert(self.view() =~= scan_step(old(self).view(), line@, index as nat));
        } else if in_conflict && starts_with_marker(&line, '=') {
            self.region = Region::InTheirs;
            assert(self.view() =~= scan_step(old(self).view(), line@, index as nat));
        } else if in_conflict && starts_with_marker(&line, '>') {
            self.close(index);
        } else {
            match self.region {
                Region::Clean => {
                    push_line(&mut self.ours_doc, copy_line(&line));
                    push_line(&mut self.theirs_doc, line);
                },
                Region::InOurs => {
                    push_line(&mut self.ours, line);
                },
                Region::InBase => {
                    let mut lines = match self.base.take() {
                        Some(lines) => lines,
                        None => Vec::new(),
                    };
                    push_line(&mut lines, line);
                    self.base = Some(lines);
                },
                Region::InTheirs => {
                    push_line(&mut self.theirs, line);
                },
            }
            assert(self.view() =~= scan_step(old(self).view(), line@, index as nat));
        }
    }
}

/// Scans `content` for conflict markers.
///
/// On success the result holds, in this order: the document with every
/// conflict replaced by its own side, the document with every conflict
/// replaced by the incoming side, the base document, which marker scanning
/// cannot rebuild and which is therefore always absent, and the sections in
/// document order. Fails with `NO_CONFLICTS` exactly when the scan closes
/// no section.
pub fn parse_conflict_markers(content: &str) -> (r: AppResult<
    (String, String, Option<String>, Vec<ConflictSection>),
>)
    ensures
        match r {
            Ok((ours, theirs, base, sections)) => {
                &&& scan_text(content@).sections.len() > 0
                &&& ours@ == join_lines(scan_text(content@).ours_doc)
                &&& theirs@ == join_lines(scan_text(content@).theirs_doc)
                &&& base is None
                &&& sections_view(sections@) == scan_text(content@).sections
            },
            Err(e) => {
                &&& scan_text(content@).sections.len() == 0
                &&& e.plain("NO_CONFLICTS"@, "Arquivo não possui marcadores de conflito"@)
            },
        },
{
    let chars = chars_of(content);
    let lines = lines_of(&chars);
    let mut scanner = ConflictScanner::new();
    let mut i: usize = 0;
    assert(rows(lines@).take(0) =~= Seq::<Seq<char>>::empty());
    while i < lines.len()
        invariant
            i <= lines.len(),
            scanner.view() == scan_from(scan_start(), rows(lines@).take(i as int), 0),
        decreases lines.len() - i,
    {
        assert(rows(lines@).take(i + 1).drop_last() =~= rows(lines@).take(i as int));
        assert(rows(lines@).take(i + 1).last() == lines@[i as int]@);
        scanner.step(copy_line(&lines[i]), i);
        i = i + 1;
    }
    assert(rows(lines@).take(lines.len() as int) =~= rows(lines@));
    assert(scanner.view() == scan_text(content@));
    let ConflictScanner { sections, ours_doc, theirs_doc, .. } = scanner;
    if sections.len() == 0 {
        return Err(AppError::new("NO_CONFLICTS", "Arquivo não possui marcadores de conflito"));
    }
    Ok((join(&ours_doc), join(&theirs_doc), None, sections))
}

impl ConflictInfo {
    /// The record is what the scan of `content` gives for the file at
    /// `path`.
    pub open spec fn describes(self, path: Seq<char>, content: Seq<char>) -> bool {
        &&& self.path@ == path
        &&& self.ours_content@ == join_lines(scan_text(content).ours_doc)
        &&& self.theirs_content@ == join_lines(scan_text(content).theirs_doc)
        &&& self.base_content is None
        &&& sections_view(self.conflicts@) == scan_text(content).sections
    }
}

/// The conflicts of the file at `file_path`, whose current text is
/// `content`. Fails with `NO_CONFLICTS` exactly when the scan closes no
/// section.
pub fn get_conflict_info(file_path: &str, content: &str) -> (r: AppResult<ConflictInfo>)
    ensures
        match r {
            Ok(info) => scan_text(content@).sections.len() > 0 && info.describes(file_path@, content@),
            Err(e) => {
                &&& scan_text(content@).sections.len() == 0
                &&& e.plain("NO_CONFLICTS"@, "Arquivo não possui marcadores de conflito"@)
            },
        },
{
    match parse_conflict_markers(content) {
        Ok((ours_content, theirs_content, base_content, conflicts)) => Ok(
            ConflictInfo {
                path: file_path.to_owned(),
                ours_content,
                theirs_content,
                base_content,
                conflicts,
            },
        ),
        Err(e) => Err(e),
    }
}

/// A stretch of a document with well-formed conflicts: one line outside
/// any conflict, or one conflict in the two-sided form, made of an opening
/// marker line, the lines of the own side, a divider line, the lines of the
/// incoming side and a closing marker line.
pub enum Piece {
    Text(Seq<char>),
    Conflict {
        opening: Seq<char>,
        ours: Seq<Seq<char>>,
        divider: Seq<char>,
        theirs: Seq<Seq<char>>,
        closing: Seq<char>,
    },
}

/// Whether none of `lines` begins with a marker.
pub open spec fn all_text(lines: Seq<Seq<char>>) -> bool {
    forall|i: int| 0 <= i < lines.len() ==> is_text_line(#[trigger] lines[i])
}

/// A line outside a conflict opens none; a conflict has its three marker
/// lines, and no line of either side begins with a marker.
pub open spec fn piece_well_formed(piece: Piece) -> bool {
    match piece {
        Piece::Text(line) => !is_marker(line, '<'),
        Piece::Conflict { opening, ours, divider, theirs, closing } => {
            &&& is_marker(opening, '<')
            &&& all_text(ours)
            &&& is_marker(divider, '=')
            &&& all_text(theirs)
            &&& is_marker(closing, '>')
        },
    }
}

/// Whether every piece of `doc` is well formed.
pub open spec fn document_well_formed(doc: Seq<Piece>) -> bool {
    forall|i: int| 0 <= i < doc.len() ==> piece_well_formed(#[trigger] doc[i])
}

/// The lines a piece is written as.
pub open spec fn piece_lines(piece: Piece) -> Seq<Seq<char>> {
    match piece {
        Piece::Text(line) => seq![line],
        Piece::Conflict { opening, ours, divider, theirs, closing } => seq![opening] + ours
            + seq![divider] + theirs + seq![closing],
    }
}

/// The lines a document is written as.
pub open spec fn document_lines(doc: Seq<Piece>) -> Seq<Seq<char>>
    decreases doc.len(),
{
    if doc.len() == 0 {
        seq![]
    } else {
        document_lines(doc.drop_last()) + piece_lines(doc.last())
    }
}

/// The document with every conflict replaced by the lines of its own side.
pub open spec fn own_side(doc: Seq<Piece>) -> Seq<Seq<char>>
    decreases doc.len(),
{
    if doc.len() == 0 {
        seq![]
    } else {
        own_side(doc.drop_last()) + match doc.last() {
            Piece::Text(line) => seq![line],
            Piece::Conflict { ours, .. } => ours,
        }
    }
}

/// The document with every conflict replaced by the lines of its incoming
/// side.
pub open spec fn incoming_side(doc: Seq<Piece>) -> Seq<Seq<char>>
    decreases doc.len(),
{
    if doc.len() == 0 {
        seq![]
    } else {
        incoming_side(doc.drop_last()) + match doc.last() {
            Piece::Text(line) => seq![line],
            Piece::Conflict { theirs, .. } => theirs,
        }
    }
}

/// How many conflicts a document holds.
pub open spec fn conflict_count(doc: Seq<Piece>) -> nat
    decreases doc.len(),
{
    if doc.len() == 0 {
        0
    } else {
        conflict_count(doc.drop_last()) + match doc.last() {
            Piece::Text(_) => 0nat,
            Piece::Conflict { .. } => 1nat,
        }
    }
}

/// The sections of a document: one for each conflict, numbered from zero
/// in document order, without base, with the text of each side joined by
/// line feeds, and with the numbers of its two outer marker lines.
pub open spec fn document_sections(doc: Seq<Piece>) -> Seq<SectionModel>
    decreases doc.len(),
{
    if doc.len() == 0 {
        seq![]
    } else {
        let before = document_sections(doc.drop_last());
        match doc.last() {
            Piece::Text(_) => before,
            Piece::Conflict { ours, theirs, .. } => {
                let start = document_lines(doc.drop_last()).len();
                before.push(
                    SectionModel {
                        id: before.len(),
                        ours: join_lines(ours),
                        theirs: join_lines(theirs),
                        base: None,
                        start_line: start,
                        end_line: start + ours.len() + theirs.len() + 2,
                    },
                )
            },
        }
    }
}

/// Scanning two runs of lines in a row is scanning their concatenation.
pub proof fn lemma_scan_append(st: ScanState, a: Seq<Seq<char>>, b: Seq<Seq<char>>, offset: nat)
    ensures
        scan_from(st, a + b, offset) == scan_from(scan_from(st, a, offset), b, offset + a.len()),
    decreases b.len(),
{
    if b.len() == 0 {
        assert(a + b =~= a);
    } else {
        lemma_scan_append(st, a, b.drop_last(), offset);
        assert((a + b).drop_last() =~= a + b.drop_last());
        assert((a + b).last() == b.last());
    }
}

/// Scanning one line is one transition.
pub proof fn lemma_scan_one(st: ScanState, line: Seq<char>, offset: nat)
    ensures
        scan_from(st, seq![line], offset) == scan_step(st, line, offset),
{
    assert(seq![line].drop_last() =~= Seq::<Seq<char>>::empty());
    assert(scan_from(st, seq![line].drop_last(), offset) == st);
    assert(seq![line].last() == line);
}

/// Lines without markers, met in the own region, are gathered there and
/// change nothing else.
pub proof fn lemma_gather_ours(st: ScanState, lines: Seq<Seq<char>>, offset: nat)
    requires
        st.region == Region::InOurs,
        all_text(lines),
    ensures
        scan_from(st, lines, offset) == (ScanState { ours: st.ours + lines, ..st }),
    decreases lines.len(),
{
    if lines.len() == 0 {
        assert(st.ours + lines =~= st.ours);
    } else {
        lemma_gather_ours(st, lines.drop_last(), offset);
        assert(is_text_line(lines[lines.len() - 1]));
        assert(st.ours + lines =~= (st.ours + lines.drop_last()).push(lines.last()));
    }
}

/// Lines without markers, met in the incoming region, are gathered there
/// and change nothing else.
pub proof fn lemma_gather_theirs(st: ScanState, lines: Seq<Seq<char>>, offset: nat)
    requires
        st.region == Region::InTheirs,
        all_text(lines),
    ensures
        scan_from(st, lines, offset) == (ScanState { theirs: st.theirs + lines, ..st }),
    decreases lines.len(),
{
    if lines.len() == 0 {
        assert(st.theirs + lines =~= st.theirs);
    } else {
        lemma_gather_theirs(st, lines.drop_last(), offset);
        assert(is_text_line(lines[lines.len() - 1]));
        assert(st.theirs + lines =~= (st.theirs + lines.drop_last()).push(lines.last()));
    }
}

/// What scanning one well-formed conflict does to a state outside any
/// conflict: one section more, each side of the document longer by the
/// lines of that side, and the scan outside any conflict again.
pub proof fn lemma_scan_conflict(
    st: ScanState,
    opening: Seq<char>,
    ours: Seq<Seq<char>>,
    divider: Seq<char>,
    theirs: Seq<Seq<char>>,
    closing: Seq<char>,
    offset: nat,
)
    requires
        is_marker(opening, '<'),
        all_text(ours),
        is_marker(divider, '='),
        all_text(theirs),
        is_marker(closing, '>'),
    ensures
        ({
            let after = scan_from(
                st,
                seq![opening] + ours + seq![divider] + theirs + seq![closing],
                offset,
            );
            &&& after.region == Region::Clean
            &&& after.sections == st.sections.push(
                SectionModel {
                    id: st.sections.len(),
                    ours: join_lines(ours),
                    theirs: join_lines(theirs),
                    base: None,
                    start_line: offset,
                    end_line: offset + ours.len() + theirs.len() + 2,
                },
            )
            &&& after.ours_doc == st.ours_doc + ours
            &&& after.theirs_doc == st.theirs_doc + theirs
        }),
{
    let s1 = scan_step(st, opening, offset);
    lemma_scan_one(st, opening, offset);
    let s2 = scan_from(s1, ours, offset + 1);
    lemma_gather_ours(s1, ours, offset + 1);
    assert(s2.ours =~= ours);
    let at_divider = offset + 1 + ours.len();
    assert(divider[0] == '=');
    let s3 = scan_step(s2, divider, at_divider);
    lemma_scan_one(s2, divider, at_divider);
    assert(s3.region == Region::InTheirs);
    let s4 = scan_from(s3, theirs, at_divider + 1);
    lemma_gather_theirs(s3, theirs, at_divider + 1);
    assert(s4.theirs =~= theirs);
    let at_closing = at_divider + 1 + theirs.len();
    assert(closing[0] == '>');
    let s5 = scan_step(s4, closing, at_closing);
    lemma_scan_one(s4, closing, at_closing);
    lemma_scan_append(st, seq![opening], ours, offset);
    lemma_scan_append(st, seq![opening] + ours, seq![divider], offset);
    lemma_scan_append(st, seq![opening] + ours + seq![divider], theirs, offset);
    lemma_scan_append(st, seq![opening] + ours + seq![divider] + theirs, seq![closing], offset);
    assert(scan_from(st, seq![opening] + ours + seq![divider] + theirs + seq![closing], offset) == s5);
    assert(s5.sections =~= st.sections.push(
        SectionModel {
            id: st.sections.len(),
            ours: join_lines(ours),
            theirs: join_lines(theirs),
            base: None,
            start_line: offset,
            end_line: offset + ours.len() + theirs.len() + 2,
        },
    ));
}

/// Scanning the lines of a well-formed document ends outside any conflict,
/// with exactly the sections of the document and its two sides.
pub proof fn lemma_scan_document(doc: Seq<Piece>)
    requires
        document_well_formed(doc),
    ensures
        scan(document_lines(doc)).region == Region::Clean,
        scan(document_lines(doc)).sections == document_sections(doc),
        scan(document_lines(doc)).ours_doc == own_side(doc),
        scan(document_lines(doc)).theirs_doc == incoming_side(doc),
    decreases doc.len(),
{
    if doc.len() > 0 {
        let before = doc.drop_last();
        assert(document_well_formed(before)) by {
            assert forall|i: int| 0 <= i < before.len() implies piece_well_formed(#[trigger] before[i]) by {
                assert(before[i] == doc[i]);
            }
        }
        lemma_scan_document(before);
        let st = scan(document_lines(before));
        let offset = document_lines(before).len();
        lemma_scan_append(scan_start(), document_lines(before), piece_lines(doc.last()), 0);
        assert(piece_well_formed(doc[doc.len() - 1]));
        match doc.last() {
            Piece::Text(line) => {
                lemma_scan_one(st, line, offset);
                assert(scan(document_lines(doc)).ours_doc =~= own_side(doc));
                assert(scan(document_lines(doc)).theirs_doc =~= incoming_side(doc));
            },
            Piece::Conflict { opening, ours, divider, theirs, closing } => {
                lemma_scan_conflict(st, opening, ours, divider, theirs, closing, offset);
            },
        }
    }
}

/// The sections of a document are as many as its conflicts, numbered from
/// zero in document order, and none has a base.
pub proof fn lemma_document_sections(doc: Seq<Piece>)
    ensures
        document_sections(doc).len() == conflict_count(doc),
        forall|k: int|
            0 <= k < document_sections(doc).len() ==> {
                &&& (#[trigger] document_sections(doc)[k]).id == k
                &&& document_sections(doc)[k].base is None
            },
    decreases doc.len(),
{
    if doc.len() > 0 {
        lemma_document_sections(doc.drop_last());
    }
}

/// The round trip of conflict markers. Let a text be written from a
/// document of lines and well-formed two-sided conflicts. Then the scan of
/// that text closes one section for each conflict, numbered from zero in
/// document order and all without base; each section holds the two sides
/// of its conflict; and the own side of the result is the document with
/// every conflict replaced by the lines of its own side, the incoming side
/// likewise.
pub proof fn law_marker_round_trip(content: Seq<char>, doc: Seq<Piece>)
    requires
        document_well_formed(doc),
        split_lines(content) == document_lines(doc),
    ensures
        scan_text(content).sections.len() == conflict_count(doc),
        forall|k: int|
            0 <= k < scan_text(content).sections.len() ==> {
                &&& (#[trigger] scan_text(content).sections[k]).id == k
                &&& scan_text(content).sections[k].base is None
            },
        scan_text(content).sections == document_sections(doc),
        join_lines(scan_text(content).ours_doc) == join_lines(own_side(doc)),
        join_lines(scan_text(content).theirs_doc) == join_lines(incoming_side(doc)),
{
    lemma_scan_document(doc);
    lemma_document_sections(doc);
}

/// The failure to find the file at `file_path`.
pub fn file_not_found(file_path: &str) -> (e: AppError)
    ensures
        e.detailed("FILE_NOT_FOUND"@, "Arquivo não encontrado"@, file_path@),
{
    AppError::with_details("FILE_NOT_FOUND", "Arquivo não encontrado", file_path)
}

/// The failure to read a file, with what the system said about it.
pub fn read_failed(details: &str) -> (e: AppError)
    ensures
        e.detailed("READ_ERROR"@, "Erro ao ler arquivo"@, details@),
{
    AppError::with_details("READ_ERROR", "Erro ao ler arquivo", details)
}

/// The failure to write a file, with what the system said about it.
pub fn write_failed(details: &str) -> (e: AppError)
    ensures
        e.detailed("WRITE_ERROR"@, "Erro ao salvar arquivo"@, details@),
{
    AppError::with_details("WRITE_ERROR", "Erro ao salvar arquivo", details)
}

/// Where the file `file_path` lies below the working tree `workdir`.
/// Without working tree there is no such place: `INTERNAL_ERROR`.
pub fn file_below(workdir: Option<std::path::PathBuf>, file_path: &str) -> (r: AppResult<
    std::path::PathBuf,
>)
    ensures
        match r {
            Ok(path) => workdir matches Some(dir) && path == joined(dir, file_path@),
            Err(e) => workdir is None && e.plain("INTERNAL_ERROR"@, "Bare repository"@),
        },
{
    match workdir {
        Some(dir) => Ok(path_join(&dir, file_path)),
        None => Err(AppError::internal("Bare repository")),
    }
}

/// Where the file `file_path` of the working tree lies: `file_path`
/// adjoined to the working directory of the repository. A bare repository
/// has no working tree: `INTERNAL_ERROR`.
pub fn workdir_file(repo: &git2::Repository, file_path: &str) -> (r: AppResult<std::path::PathBuf>)
    ensures
        match r {
            Ok(path) => exists|workdir: std::path::PathBuf| path == #[trigger] joined(workdir, file_path@),
            Err(e) => e.plain("INTERNAL_ERROR"@, "Bare repository"@),
        },
{
    file_below(repo_workdir(repo), file_path)
}

/// Marks the file as resolved: stages it as it stands in the working tree.
pub fn mark_resolved(repo: &git2::Repository, file_path: &str) -> (r: AppResult<()>)
    ensures
        r matches Err(e) ==> e.is_store_failure(),
{
    let mut staged = match index(repo) {
        Ok(staged) => staged,
        Err(e) => {
            return Err(AppError::git_error(e));
        },
    };
    match index_add_path(&mut staged, file_path) {
        Ok(()) => {},
        Err(e) => {
            return Err(AppError::git_error(e));
        },
    }
    match index_write(&mut staged) {
        Ok(()) => Ok(()),
        Err(e) => Err(AppError::git_error(e)),
    }
}

/// The answer to an index that may hold conflicts: work goes on exactly
/// when it holds none, and is refused with `MERGE_CONFLICT` when it does.
pub fn refuse_conflicts(conflicted: bool) -> (r: AppResult<()>)
    ensures
        conflicted <==> r is Err,
        r matches Err(e) ==> e.plain("MERGE_CONFLICT"@, "Conflitos de merge detectados"@),
{
    if conflicted {
        Err(AppError::merge_conflict())
    } else {
        Ok(())
    }
}

/// Whether abandoning a merge is in order in state `state`: only while a
/// merge is in progress.
pub open spec fn may_abort(state: RepoState) -> bool {
    state == RepoState::Merge
}

/// Whether abandoning a merge is in order in state `state`.
pub fn can_abort_merge(state: RepoState) -> (r: bool)
    ensures
        r == may_abort(state),
{
    state == RepoState::Merge
}

/// Abandons the merge in progress, once the state of the repository is
/// known: index and working tree go back to `HEAD`, and the merge state is
/// forgotten. Fails with `NOT_MERGING` exactly when no merge is in
/// progress in `state`, before anything is asked of the store.
pub fn abort_in_state(repo: &git2::Repository, state: RepoState) -> (r: AppResult<()>)
    ensures
        !may_abort(state) <==> (r matches Err(e) && e.plain("NOT_MERGING"@, "Não há merge em andamento"@)),
        r matches Err(e) ==> e.is_store_failure() || e.plain("NOT_MERGING"@, "Não há merge em andamento"@),
{
    proof {
        reveal_strlit("NOT_MERGING");
        reveal_strlit("GIT_ERROR");
        assert("NOT_MERGING"@.len() != "GIT_ERROR"@.len());
    }
    if !can_abort_merge(state) {
        return Err(AppError::new("NOT_MERGING", "Não há merge em andamento"));
    }
    let reference = match head(repo) {
        Ok(reference) => reference,
        Err(e) => {
            return Err(AppError::git_error(e));
        },
    };
    let tip = match peel_to_commit(&reference) {
        Ok(tip) => tip,
        Err(e) => {
            return Err(AppError::git_error(e));
        },
    };
    match reset(repo, commit_as_object(&tip), ResetMode::Hard) {
        Ok(()) => {},
        Err(e) => {
            return Err(AppError::git_error(e));
        },
    }
    match cleanup_state(repo) {
        Ok(()) => Ok(()),
        Err(e) => Err(AppError::git_error(e)),
    }
}

/// Abandons the merge in progress: index and working tree go back to
/// `HEAD`, and the merge state is forgotten. Fails with `NOT_MERGING` when
/// no merge is in progress. The state is read here; what follows from it
/// is `abort_in_state`.
pub fn abort_merge(repo: &git2::Repository) -> (r: AppResult<()>)
    ensures
        r matches Err(e) ==> e.is_store_failure() || e.plain("NOT_MERGING"@, "Não há merge em andamento"@),
{
    abort_in_state(repo, repo_state(repo))
}

} // verus!
