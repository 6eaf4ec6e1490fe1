//! Pull requests, as the `gh` command-line tool serves them: the request
//! that each operation sends, and what each answer is read as.

use vstd::prelude::*;
use crate::branch::last_segment;
use crate::branch::last_segment_text;
use crate::error::AppError;
use crate::error::AppResult;
use crate::error::json_error_text;
use crate::store::json::Json;
use crate::store::json::json_list;
use crate::store::json::json_value;
use crate::store::json::parse_list;
use crate::store::json::parse_value;
use crate::text::chars_of;
use crate::text::contains_text;
use crate::text::decimal;
use crate::text::decimal_string;
use crate::text::has_subtext;
use crate::text::parse_unsigned;
use crate::text::same_chars;
use crate::text::same_text;
use crate::text::string_of;
use crate::text::trim_chars;
use crate::text::trimmed;
use crate::text::unsigned_value;

verus! {

/// One pull request.
#[derive(Debug, Clone)]
pub struct PullRequest {
    pub number: u64,
    pub title: String,
    pub body: Option<String>,
    pub state: String,
    pub author: String,
    pub head_branch: String,
    pub base_branch: String,
    pub url: String,
    pub html_url: String,
    pub created_at: String,
    pub updated_at: String,
    pub draft: bool,
    pub mergeable: Option<bool>,
    pub additions: u64,
    pub deletions: u64,
    pub changed_files: u64,
    pub reviewers: Vec<String>,
    pub labels: Vec<String>,
}

/// One review of a pull request.
#[derive(Debug, Clone)]
pub struct PullRequestReview {
    pub id: u64,
    pub author: String,
    pub state: String,
    pub body: Option<String>,
    pub submitted_at: String,
}

/// One comment on a pull request.
#[derive(Debug, Clone)]
pub struct PullRequestComment {
    pub id: u64,
    pub author: String,
    pub body: String,
    pub path: Option<String>,
    pub line: Option<u64>,
    pub created_at: String,
}

/// One file that a pull request changes.
#[derive(Debug, Clone)]
pub struct PullRequestFile {
    pub filename: String,
    pub status: String,
    pub additions: u64,
    pub deletions: u64,
    pub patch: Option<String>,
}

/// The value of the first member with key `key`; null when there is none.
pub open spec fn lookup(members: Seq<(String, Json)>, key: Seq<char>) -> Json
    decreases members.len(),
{
    if members.len() == 0 {
        Json::Null
    } else if members[0].0@ == key {
        members[0].1
    } else {
        lookup(members.drop_first(), key)
    }
}

/// The member `key` of an object; null for a missing member and for
/// anything that is no object.
pub open spec fn field(json: Json, key: Seq<char>) -> Json {
    match json {
        Json::Object(members) => lookup(members@, key),
        _ => Json::Null,
    }
}

/// The text of a JSON string.
pub open spec fn as_text(json: Json) -> Option<Seq<char>> {
    match json {
        Json::Text(text) => Some(text@),
        _ => None,
    }
}

/// The number of a JSON number that is an unsigned integer.
pub open spec fn as_number(json: Json) -> Option<u64> {
    match json {
        Json::Number(n) => n,
        _ => None,
    }
}

/// The truth value of a JSON boolean.
pub open spec fn as_flag(json: Json) -> Option<bool> {
    match json {
        Json::Bool(b) => Some(b),
        _ => None,
    }
}

/// The items of a JSON array; none for anything else.
pub open spec fn items_of(json: Json) -> Seq<Json> {
    match json {
        Json::Array(items) => items@,
        _ => seq![],
    }
}

/// A text that may be missing, read as empty when it is.
pub open spec fn or_empty(text: Option<Seq<char>>) -> Seq<char> {
    match text {
        Some(t) => t,
        None => Seq::empty(),
    }
}

/// A number that may be missing, read as zero when it is.
pub open spec fn or_zero(number: Option<u64>) -> u64 {
    match number {
        Some(n) => n,
        None => 0,
    }
}

/// Whether an optional string holds the optional text.
pub open spec fn holds(found: Option<String>, text: Option<Seq<char>>) -> bool {
    match found {
        Some(s) => text == Some(s@),
        None => text is None,
    }
}

/// The texts found under `key` in the items of a list, in order; items
/// without such a text are passed over.
pub open spec fn member_texts(items: Seq<Json>, key: Seq<char>) -> Seq<Seq<char>>
    decreases items.len(),
{
    if items.len() == 0 {
        seq![]
    } else {
        let rest = member_texts(items.drop_last(), key);
        match as_text(field(items.last(), key)) {
            Some(text) => rest.push(text),
            None => rest,
        }
    }
}

/// The texts of a list of strings.
pub open spec fn texts(items: Seq<String>) -> Seq<Seq<char>> {
    Seq::new(items.len(), |i: int| items[i]@)
}

/// What an optional reference to a JSON value stands for: the value, or
/// null.
pub open spec fn value_of(found: Option<&Json>) -> Json {
    match found {
        Some(json) => *json,
        None => Json::Null,
    }
}

/// The member `key` of `json`.
pub fn member<'a>(json: &'a Json, key: &str) -> (found: Option<&'a Json>)
    ensures
        value_of(found) == field(*json, key@),
{
    match json {
        Json::Object(members) => {
            let mut i: usize = 0;
            assert(members@.skip(0) =~= members@);
            while i < members.len()
                invariant
                    i <= members.len(),
                    field(*json, key@) == lookup(members@, key@),
                    lookup(members@, key@) == lookup(members@.skip(i as int), key@),
                decreases members.len() - i,
            {
                assert(members@.skip(i as int).drop_first() =~= members@.skip(i + 1));
                assert(members@.skip(i as int)[0] == members@[i as int]);
                if same_text(members[i].0.as_str(), key) {
                    return Some(&members[i].1);
                }
                i = i + 1;
            }
            None
        },
        _ => None,
    }
}

/// The text under `key`, if there is one.
pub fn text_field(json: &Json, key: &str) -> (found: Option<String>)
    ensures
        holds(found, as_text(field(*json, key@))),
{
    match member(json, key) {
        Some(Json::Text(text)) => Some(text.clone()),
        _ => None,
    }
}

/// The text under `key`, or the empty text.
pub fn text_or_empty(json: &Json, key: &str) -> (found: String)
    ensures
        found@ == or_empty(as_text(field(*json, key@))),
{
    match text_field(json, key) {
        Some(text) => text,
        None => String::new(),
    }
}

/// The text under `inner` of the object under `outer`, or the empty text.
pub fn nested_text(json: &Json, outer: &str, inner: &str) -> (found: String)
    ensures
        found@ == or_empty(as_text(field(field(*json, outer@), inner@))),
{
    match member(json, outer) {
        Some(value) => text_or_empty(value, inner),
        None => String::new(),
    }
}

/// The unsigned number under `key`, if there is one.
pub fn number_field(json: &Json, key: &str) -> (found: Option<u64>)
    ensures
        found == as_number(field(*json, key@)),
{
    match member(json, key) {
        Some(Json::Number(n)) => *n,
        _ => None,
    }
}

/// The unsigned number under `key`, or zero.
pub fn number_or_zero(json: &Json, key: &str) -> (found: u64)
    ensures
        found == or_zero(as_number(field(*json, key@))),
{
    match number_field(json, key) {
        Some(n) => n,
        None => 0,
    }
}

/// The truth value under `key`, if there is one.
pub fn flag_field(json: &Json, key: &str) -> (found: Option<bool>)
    ensures
        found == as_flag(field(*json, key@)),
{
    match member(json, key) {
        Some(Json::Bool(b)) => Some(*b),
        _ => None,
    }
}

/// The texts found under `key` in the items of the list under `list`.
pub fn listed_texts(json: &Json, list: &str, key: &str) -> (found: Vec<String>)
    ensures
        texts(found@) == member_texts(items_of(field(*json, list@)), key@),
{
    let mut found: Vec<String> = Vec::new();
    match member(json, list) {
        Some(Json::Array(items)) => {
            let mut i: usize = 0;
            assert(texts(found@) =~= member_texts(items@.take(0), key@));
            while i < items.len()
                invariant
                    i <= items.len(),
                    texts(found@) == member_texts(items@.take(i as int), key@),
                decreases items.len() - i,
            {
                assert(items@.take(i + 1).drop_last() =~= items@.take(i as int));
                assert(items@.take(i + 1).last() == items@[i as int]);
                let ghost before = texts(found@);
                match text_field(&items[i], key) {
                    Some(text) => {
                        found.push(text);
                        assert(texts(found@) =~= before.push(text@));
                    },
                    None => {},
                }
                i = i + 1;
            }
            assert(items@.take(items.len() as int) =~= items@);
        },
        _ => {
            assert(texts(found@) =~= Seq::<Seq<char>>::empty());
        },
    }
    found
}

/// Whether a pull request can be merged, as the tool words it.
pub open spec fn mergeable_of(json: Json) -> Option<bool> {
    match as_text(field(json, "mergeable"@)) {
        Some(text) => Some(text == "MERGEABLE"@),
        None => None,
    }
}

impl PullRequest {
    /// The record is what `json` says, with every missing text read as
    /// empty, every missing number as zero and a missing draft flag as
    /// unset. Whether it can be merged is read only when `detailed`.
    pub open spec fn renders(self, json: Json, detailed: bool) -> bool {
        &&& self.number == or_zero(as_number(field(json, "number"@)))
        &&& self.title@ == or_empty(as_text(field(json, "title"@)))
        &&& holds(self.body, as_text(field(json, "body"@)))
        &&& self.state@ == or_empty(as_text(field(json, "state"@)))
        &&& self.author@ == or_empty(as_text(field(field(json, "author"@), "login"@)))
        &&& self.head_branch@ == or_empty(as_text(field(json, "headRefName"@)))
        &&& self.base_branch@ == or_empty(as_text(field(json, "baseRefName"@)))
        &&& self.url@ == or_empty(as_text(field(json, "url"@)))
        &&& self.html_url@ == or_empty(as_text(field(json, "url"@)))
        &&& self.created_at@ == or_empty(as_text(field(json, "createdAt"@)))
        &&& self.updated_at@ == or_empty(as_text(field(json, "updatedAt"@)))
        &&& self.draft == match as_flag(field(json, "isDraft"@)) {
            Some(b) => b,
            None => false,
        }
        &&& self.mergeable == if detailed {
            mergeable_of(json)
        } else {
            None
        }
        &&& self.additions == or_zero(as_number(field(json, "additions"@)))
        &&& self.deletions == or_zero(as_number(field(json, "deletions"@)))
        &&& self.changed_files == or_zero(as_number(field(json, "changedFiles"@)))
        &&& texts(self.reviewers@) == member_texts(items_of(field(json, "reviewRequests"@)), "login"@)
        &&& texts(self.labels@) == member_texts(items_of(field(json, "labels"@)), "name"@)
    }
}

/// The pull request that `json` describes.
pub fn pull_request_of(json: &Json, detailed: bool) -> (pr: PullRequest)
    ensures
        pr.renders(*json, detailed),
{
    let mergeable = if detailed {
        match text_field(json, "mergeable") {
            Some(text) => Some(same_text(text.as_str(), "MERGEABLE")),
            None => None,
        }
    } else {
        None
    };
    PullRequest {
        number: number_or_zero(json, "number"),
        title: text_or_empty(json, "title"),
        body: text_field(json, "body"),
        state: text_or_empty(json, "state"),
        author: nested_text(json, "author", "login"),
        head_branch: text_or_empty(json, "headRefName"),
        base_branch: text_or_empty(json, "baseRefName"),
        url: text_or_empty(json, "url"),
        html_url: text_or_empty(json, "url"),
        created_at: text_or_empty(json, "createdAt"),
        updated_at: text_or_empty(json, "updatedAt"),
        draft: match flag_field(json, "isDraft") {
            Some(b) => b,
            None => false,
        },
        mergeable,
        additions: number_or_zero(json, "additions"),
        deletions: number_or_zero(json, "deletions"),
        changed_files: number_or_zero(json, "changedFiles"),
        reviewers: listed_texts(json, "reviewRequests", "login"),
        labels: listed_texts(json, "labels", "name"),
    }
}

impl PullRequestReview {
    /// The record is what `json` says, with missing texts read as empty
    /// and a missing number as zero.
    pub open spec fn renders(self, json: Json) -> bool {
        &&& self.id == or_zero(as_number(field(json, "id"@)))
        &&& self.author@ == or_empty(as_text(field(field(json, "author"@), "login"@)))
        &&& self.state@ == or_empty(as_text(field(json, "state"@)))
        &&& holds(self.body, as_text(field(json, "body"@)))
        &&& self.submitted_at@ == or_empty(as_text(field(json, "submittedAt"@)))
    }
}

/// The review that `json` describes.
pub fn review_of(json: &Json) -> (review: PullRequestReview)
    ensures
        review.renders(*json),
{
    PullRequestReview {
        id: number_or_zero(json, "id"),
        author: nested_text(json, "author", "login"),
        state: text_or_empty(json, "state"),
        body: text_field(json, "body"),
        submitted_at: text_or_empty(json, "submittedAt"),
    }
}

impl PullRequestComment {
    /// The record is what `json` says, with missing texts read as empty
    /// and a missing id as zero.
    pub open spec fn renders(self, json: Json) -> bool {
        &&& self.id == or_zero(as_number(field(json, "id"@)))
        &&& self.author@ == or_empty(as_text(field(field(json, "author"@), "login"@)))
        &&& self.body@ == or_empty(as_text(field(json, "body"@)))
        &&& holds(self.path, as_text(field(json, "path"@)))
        &&& self.line == as_number(field(json, "line"@))
        &&& self.created_at@ == or_empty(as_text(field(json, "createdAt"@)))
    }
}

/// The comment that `json` describes.
pub fn comment_of(json: &Json) -> (comment: PullRequestComment)
    ensures
        comment.renders(*json),
{
    PullRequestComment {
        id: number_or_zero(json, "id"),
        author: nested_text(json, "author", "login"),
        body: text_or_empty(json, "body"),
        path: text_field(json, "path"),
        line: number_field(json, "line"),
        created_at: text_or_empty(json, "createdAt"),
    }
}

impl PullRequestFile {
    /// The record is what `json` says; a file counts as modified when the
    /// tool reports its additions, and as unknown otherwise. The patch is
    /// never part of the answer.
    pub open spec fn renders(self, json: Json) -> bool {
        &&& self.filename@ == or_empty(as_text(field(json, "path"@)))
        &&& self.status@ == if as_number(field(json, "additions"@)) is Some {
            "modified"@
        } else {
            "unknown"@
        }
        &&& self.additions == or_zero(as_number(field(json, "additions"@)))
        &&& self.deletions == or_zero(as_number(field(json, "deletions"@)))
        &&& self.patch is None
    }
}

/// The changed file that `json` describes.
pub fn file_of(json: &Json) -> (file: PullRequestFile)
    ensures
        file.renders(*json),
{
    let status = match number_field(json, "additions") {
        Some(_) => "modified".to_owned(),
        None => "unknown".to_owned(),
    };
    PullRequestFile {
        filename: text_or_empty(json, "path"),
        status,
        additions: number_or_zero(json, "additions"),
        deletions: number_or_zero(json, "deletions"),
        patch: None,
    }
}

/// The failure to find the tool on this machine.
pub fn gh_not_found() -> (e: AppError)
    ensures
        e.detailed("GH_NOT_FOUND"@, "GitHub CLI (gh) nao encontrado"@, "Instale em https://cli.github.com"@),
{
    AppError::with_details("GH_NOT_FOUND", "GitHub CLI (gh) nao encontrado", "Instale em https://cli.github.com")
}

/// The failure to start the tool, with what the system said about it.
pub fn gh_launch_failed(details: &str) -> (e: AppError)
    ensures
        e.detailed("GH_COMMAND_FAILED"@, "Falha ao executar GitHub CLI"@, details@),
{
    AppError::with_details("GH_COMMAND_FAILED", "Falha ao executar GitHub CLI", details)
}

/// Whether what the tool wrote to its error stream says that nobody is
/// logged in.
pub open spec fn asks_for_login(stderr: Seq<char>) -> bool {
    has_subtext(stderr, "not logged"@) || has_subtext(stderr, "auth login"@)
}

/// What a run of the tool comes to: its output when it succeeded;
/// otherwise `GH_NOT_AUTHENTICATED` when its error stream asks for a
/// login, and `GH_COMMAND_FAILED` with the trimmed error stream in every
/// other case.
pub fn gh_outcome(success: bool, stdout: String, stderr: &str) -> (r: AppResult<String>)
    ensures
        match r {
            Ok(output) => success && output == stdout,
            Err(e) => !success && if asks_for_login(stderr@) {
                e.detailed(
                    "GH_NOT_AUTHENTICATED"@,
                    "Voce precisa fazer login no GitHub CLI"@,
                    "Execute 'gh auth login' no terminal"@,
                )
            } else {
                e.detailed("GH_COMMAND_FAILED"@, "Comando gh falhou"@, trimmed(stderr@))
            },
        },
{
    if success {
        return Ok(stdout);
    }
    let chars = chars_of(stderr);
    if contains_text(&chars, &chars_of("not logged")) || contains_text(&chars, &chars_of("auth login")) {
        Err(
            AppError::with_details(
                "GH_NOT_AUTHENTICATED",
                "Voce precisa fazer login no GitHub CLI",
                "Execute 'gh auth login' no terminal",
            ),
        )
    } else {
        let details = string_of(&trim_chars(&chars));
        Err(AppError::with_details("GH_COMMAND_FAILED", "Comando gh falhou", details.as_str()))
    }
}

/// The fields asked for when pull requests are listed.
pub open spec fn list_fields() -> Seq<char> {
    "number,title,body,state,author,headRefName,baseRefName,url,createdAt,updatedAt,isDraft,additions,deletions,changedFiles,reviewRequests,labels"@
}

/// The fields asked for when one pull request is read.
pub open spec fn view_fields() -> Seq<char> {
    "number,title,body,state,author,headRefName,baseRefName,url,createdAt,updatedAt,isDraft,mergeable,additions,deletions,changedFiles,reviewRequests,labels"@
}

/// How many pull requests a listing asks for when the caller names no
/// limit.
pub const DEFAULT_PULL_REQUEST_LIMIT: u32 = 30;

/// The limit of a listing: the one that is asked for, or thirty.
pub fn pull_request_limit(limit: Option<u32>) -> (n: u32)
    ensures
        n == match limit {
            Some(asked) => asked,
            None => DEFAULT_PULL_REQUEST_LIMIT,
        },
{
    match limit {
        Some(asked) => asked,
        None => DEFAULT_PULL_REQUEST_LIMIT,
    }
}

/// The request that lists pull requests in state `state`, or in any state
/// when none is named, `limit` at most.
pub fn list_pull_requests(state: Option<&str>, limit: u32) -> (args: Vec<String>)
    ensures
        texts(args@) == seq![
            "pr"@,
            "list"@,
            "--state"@,
            match state {
                Some(s) => s@,
                None => "all"@,
            },
            "--limit"@,
            decimal(limit as nat),
            "--json"@,
            list_fields(),
        ],
{
    let mut args: Vec<String> = Vec::new();
    args.push("pr".to_owned());
    args.push("list".to_owned());
    args.push("--state".to_owned());
    args.push(
        match state {
            Some(s) => s.to_owned(),
            None => "all".to_owned(),
        },
    );
    args.push("--limit".to_owned());
    args.push(decimal_string(limit as u64));
    args.push("--json".to_owned());
    args.push(
        "number,title,body,state,author,headRefName,baseRefName,url,createdAt,updatedAt,isDraft,additions,deletions,changedFiles,reviewRequests,labels".to_owned(),
    );
    assert(texts(args@) =~= seq![
        "pr"@,
        "list"@,
        "--state"@,
        match state {
            Some(s) => s@,
            None => "all"@,
        },
        "--limit"@,
        decimal(limit as nat),
        "--json"@,
        list_fields(),
    ]);
    args
}

/// The request that reads the fields `fields` of pull request `number`.
pub fn view_pull_request(number: u64, fields: &str) -> (args: Vec<String>)
    ensures
        texts(args@) == seq!["pr"@, "view"@, decimal(number as nat), "--json"@, fields@],
{
    let mut args: Vec<String> = Vec::new();
    args.push("pr".to_owned());
    args.push("view".to_owned());
    args.push(decimal_string(number));
    args.push("--json".to_owned());
    args.push(fields.to_owned());
    assert(texts(args@) =~= seq!["pr"@, "view"@, decimal(number as nat), "--json"@, fields@]);
    args
}

/// The request that reads pull request `number`.
pub fn get_pull_request(number: u64) -> (args: Vec<String>)
    ensures
        texts(args@) == seq!["pr"@, "view"@, decimal(number as nat), "--json"@, view_fields()],
{
    view_pull_request(
        number,
        "number,title,body,state,author,headRefName,baseRefName,url,createdAt,updatedAt,isDraft,mergeable,additions,deletions,changedFiles,reviewRequests,labels",
    )
}

/// The request that reads the reviews of pull request `number`.
pub fn get_pull_request_reviews(number: u64) -> (args: Vec<String>)
    ensures
        texts(args@) == seq!["pr"@, "view"@, decimal(number as nat), "--json"@, "reviews"@],
{
    view_pull_request(number, "reviews")
}

/// The request that reads the comments of pull request `number`.
pub fn get_pull_request_comments(number: u64) -> (args: Vec<String>)
    ensures
        texts(args@) == seq!["pr"@, "view"@, decimal(number as nat), "--json"@, "comments"@],
{
    view_pull_request(number, "comments")
}

/// The request that reads the changed files of pull request `number`.
pub fn get_pull_request_files(number: u64) -> (args: Vec<String>)
    ensures
        texts(args@) == seq!["pr"@, "view"@, decimal(number as nat), "--json"@, "files"@],
{
    view_pull_request(number, "files")
}

/// The arguments that create a pull request.
pub open spec fn create_arguments(
    title: Seq<char>,
    body: Option<Seq<char>>,
    base: Seq<char>,
    head: Option<Seq<char>>,
    draft: bool,
) -> Seq<Seq<char>> {
    seq!["pr"@, "create"@, "--title"@, title, "--base"@, base] + (match body {
        Some(b) => seq!["--body"@, b],
        None => seq![],
    }) + (match head {
        Some(h) => seq!["--head"@, h],
        None => seq![],
    }) + (if draft {
        seq!["--draft"@]
    } else {
        seq![]
    })
}

/// The view of an optional text.
pub open spec fn opt_text(text: Option<&str>) -> Option<Seq<char>> {
    match text {
        Some(t) => Some(t@),
        None => None,
    }
}

/// The request that creates a pull request from `head`, or from the
/// current branch when none is named, into `base`.
pub fn create_pull_request(title: &str, body: Option<&str>, base: &str, head: Option<&str>, draft: bool) -> (args:
    Vec<String>)
    ensures
        texts(args@) == create_arguments(title@, opt_text(body), base@, opt_text(head), draft),
{
    let mut args: Vec<String> = Vec::new();
    args.push("pr".to_owned());
    args.push("create".to_owned());
    args.push("--title".to_owned());
    args.push(title.to_owned());
    args.push("--base".to_owned());
    args.push(base.to_owned());
    match body {
        Some(b) => {
            args.push("--body".to_owned());
            args.push(b.to_owned());
        },
        None => {},
    }
    match head {
        Some(h) => {
            args.push("--head".to_owned());
            args.push(h.to_owned());
        },
        None => {},
    }
    if draft {
        args.push("--draft".to_owned());
    }
    assert(texts(args@) =~= create_arguments(title@, opt_text(body), base@, opt_text(head), draft));
    args
}

/// The number of the pull request that the tool says it created: the
/// number after the last slash of the address it printed.
pub open spec fn created_number_of(output: Seq<char>) -> Option<u64> {
    unsigned_value(last_segment_text(trimmed(output)))
}

/// The number of the pull request just created. Fails with
/// `PR_CREATE_FAILED` when the output does not end in a number, or ends in
/// zero.
pub fn created_number(output: &str) -> (r: AppResult<u64>)
    ensures
        match r {
            Ok(number) => number > 0 && created_number_of(output@) == Some(number),
            Err(e) => {
                &&& created_number_of(output@) is None || created_number_of(output@) == Some(0u64)
                &&& e.plain("PR_CREATE_FAILED"@, "Falha ao criar PR"@)
            },
        },
{
    let url = string_of(&trim_chars(&chars_of(output)));
    let tail = last_segment(url.as_str());
    match parse_unsigned(&chars_of(tail.as_str())) {
        Some(number) => if number == 0 {
            Err(AppError::new("PR_CREATE_FAILED", "Falha ao criar PR"))
        } else {
            Ok(number)
        },
        None => Err(AppError::new("PR_CREATE_FAILED", "Falha ao criar PR")),
    }
}

/// The flag that stands for a review action, if the action is known.
pub open spec fn review_flag(action: Seq<char>) -> Option<Seq<char>> {
    if action == "approve"@ {
        Some("--approve"@)
    } else if action == "request-changes"@ {
        Some("--request-changes"@)
    } else if action == "comment"@ {
        Some("--comment"@)
    } else {
        None
    }
}

/// The request that reviews pull request `number`: approves it, requests
/// changes or comments. Any other action fails with `INVALID_ACTION`.
pub fn review_pull_request(number: u64, action: &str, body: Option<&str>) -> (r: AppResult<Vec<String>>)
    ensures
        match r {
            Ok(args) => review_flag(action@) matches Some(flag) && texts(args@) == seq![
                "pr"@,
                "review"@,
                decimal(number as nat),
                flag,
            ] + (match body {
                Some(b) => seq!["--body"@, b@],
                None => seq![],
            }),
            Err(e) => review_flag(action@) is None && e.plain("INVALID_ACTION"@, "Acao de review invalida"@),
        },
{
    let flag = if same_text(action, "approve") {
        "--approve"
    } else if same_text(action, "request-changes") {
        "--request-changes"
    } else if same_text(action, "comment") {
        "--comment"
    } else {
        return Err(AppError::new("INVALID_ACTION", "Acao de review invalida"));
    };
    let mut args: Vec<String> = Vec::new();
    args.push("pr".to_owned());
    args.push("review".to_owned());
    args.push(decimal_string(number));
    args.push(flag.to_owned());
    match body {
        Some(b) => {
            args.push("--body".to_owned());
            args.push(b.to_owned());
        },
        None => {},
    }
    assert(texts(args@) =~= seq!["pr"@, "review"@, decimal(number as nat), flag@] + (match body {
        Some(b) => seq!["--body"@, b@],
        None => seq![],
    }));
    Ok(args)
}

/// The request that comments on pull request `number`.
pub fn comment_pull_request(number: u64, body: &str) -> (args: Vec<String>)
    ensures
        texts(args@) == seq!["pr"@, "comment"@, decimal(number as nat), "--body"@, body@],
{
    let mut args: Vec<String> = Vec::new();
    args.push("pr".to_owned());
    args.push("comment".to_owned());
    args.push(decimal_string(number));
    args.push("--body".to_owned());
    args.push(body.to_owned());
    assert(texts(args@) =~= seq!["pr"@, "comment"@, decimal(number as nat), "--body"@, body@]);
    args
}

/// The flag that stands for a merge method: squash and rebase by name,
/// and a merge commit for every other name.
pub open spec fn merge_flag(method: Seq<char>) -> Seq<char> {
    if method == "squash"@ {
        "--squash"@
    } else if method == "rebase"@ {
        "--rebase"@
    } else {
        "--merge"@
    }
}

/// The request that merges pull request `number`, and deletes its branch
/// when asked.
pub fn merge_pull_request(number: u64, method: &str, delete_branch: bool) -> (args: Vec<String>)
    ensures
        texts(args@) == seq!["pr"@, "merge"@, decimal(number as nat), merge_flag(method@)] + (
        if delete_branch {
            seq!["--delete-branch"@]
        } else {
            seq![]
        }),
{
    let flag = if same_text(method, "squash") {
        "--squash"
    } else if same_text(method, "rebase") {
        "--rebase"
    } else {
        "--merge"
    };
    let mut args: Vec<String> = Vec::new();
    args.push("pr".to_owned());
    args.push("merge".to_owned());
    args.push(decimal_string(number));
    args.push(flag.to_owned());
    if delete_branch {
        args.push("--delete-branch".to_owned());
    }
    assert(texts(args@) =~= seq!["pr"@, "merge"@, decimal(number as nat), merge_flag(method@)] + (
    if delete_branch {
        seq!["--delete-branch"@]
    } else {
        seq![]
    }));
    args
}

/// The request `pr <verb> <number>`.
pub fn plain_request(verb: &str, number: u64) -> (args: Vec<String>)
    ensures
        texts(args@) == seq!["pr"@, verb@, decimal(number as nat)],
{
    let mut args: Vec<String> = Vec::new();
    args.push("pr".to_owned());
    args.push(verb.to_owned());
    args.push(decimal_string(number));
    assert(texts(args@) =~= seq!["pr"@, verb@, decimal(number as nat)]);
    args
}

/// The request that closes pull request `number` without merging it.
pub fn close_pull_request(number: u64) -> (args: Vec<String>)
    ensures
        texts(args@) == seq!["pr"@, "close"@, decimal(number as nat)],
{
    plain_request("close", number)
}

/// The request that reopens pull request `number`.
pub fn reopen_pull_request(number: u64) -> (args: Vec<String>)
    ensures
        texts(args@) == seq!["pr"@, "reopen"@, decimal(number as nat)],
{
    plain_request("reopen", number)
}

/// The request that marks pull request `number` as ready for review.
pub fn ready_pull_request(number: u64) -> (args: Vec<String>)
    ensures
        texts(args@) == seq!["pr"@, "ready"@, decimal(number as nat)],
{
    plain_request("ready", number)
}

/// The request that reads the diff of pull request `number`.
pub fn get_pull_request_diff(number: u64) -> (args: Vec<String>)
    ensures
        texts(args@) == seq!["pr"@, "diff"@, decimal(number as nat)],
{
    plain_request("diff", number)
}

/// The request that checks out the branch of pull request `number`.
pub fn checkout_pull_request(number: u64) -> (args: Vec<String>)
    ensures
        texts(args@) == seq!["pr"@, "checkout"@, decimal(number as nat)],
{
    plain_request("checkout", number)
}

fn parse_error(message: &str, e: serde_json::Error) -> (r: AppError)
    ensures
        r.reported("PARSE_ERROR"@, message@),
{
    let text = json_error_text(&e);
    AppError::with_details("PARSE_ERROR", message, text.as_str())
}

/// Whether the answer to a listing says that there is nothing: it is
/// blank, or an empty list.
pub open spec fn is_blank_list(output: Seq<char>) -> bool {
    trimmed(output).len() == 0 || trimmed(output) == "[]"@
}

/// The pull requests that the answer to a listing holds. A blank answer
/// and the empty list hold none; an answer that is no JSON list fails with
/// `PARSE_ERROR`.
pub fn parse_pull_requests(output: &str) -> (r: AppResult<Vec<PullRequest>>)
    ensures
        match r {
            Ok(found) => if is_blank_list(output@) {
                found@.len() == 0
            } else {
                &&& json_list(output@) matches Some(items)
                &&& found@.len() == items@.len()
                &&& forall|i: int| 0 <= i < found@.len() ==> (#[trigger] found@[i]).renders(items@[i], false)
            },
            Err(e) => {
                &&& !is_blank_list(output@)
                &&& json_list(output@) is None
                &&& e.reported("PARSE_ERROR"@, "Erro ao parsear PRs"@)
            },
        },
{
    let kept = trim_chars(&chars_of(output));
    if kept.len() == 0 || same_chars(&kept, &chars_of("[]")) {
        return Ok(Vec::new());
    }
    let items = match parse_list(output) {
        Ok(items) => items,
        Err(e) => {
            return Err(parse_error("Erro ao parsear PRs", e));
        },
    };
    let mut found: Vec<PullRequest> = Vec::new();
    let mut i: usize = 0;
    while i < items.len()
        invariant
            i <= items.len(),
            found@.len() == i,
            forall|k: int| 0 <= k < i ==> (#[trigger] found@[k]).renders(items@[k], false),
        decreases items.len() - i,
    {
        found.push(pull_request_of(&items[i], false));
        i = i + 1;
    }
    Ok(found)
}

/// The pull request that the answer to a read holds; an answer that is no
/// JSON value fails with `PARSE_ERROR`.
pub fn parse_pull_request(output: &str) -> (r: AppResult<PullRequest>)
    ensures
        match r {
            Ok(pr) => json_value(output@) matches Some(json) && pr.renders(json, true),
            Err(e) => json_value(output@) is None && e.reported("PARSE_ERROR"@, "Erro ao parsear PR"@),
        },
{
    match parse_value(output) {
        Ok(json) => Ok(pull_request_of(&json, true)),
        Err(e) => Err(parse_error("Erro ao parsear PR", e)),
    }
}

/// The reviews that the answer holds under `reviews`; an answer that is no
/// JSON value fails with `PARSE_ERROR`.
pub fn parse_reviews(output: &str) -> (r: AppResult<Vec<PullRequestReview>>)
    ensures
        match r {
            Ok(found) => {
                &&& json_value(output@) matches Some(json)
                &&& found@.len() == items_of(field(json, "reviews"@)).len()
                &&& forall|i: int|
                    0 <= i < found@.len() ==> (#[trigger] found@[i]).renders(
                        items_of(field(json, "reviews"@))[i],
                    )
            },
            Err(e) => json_value(output@) is None && e.reported("PARSE_ERROR"@, "Erro ao parsear reviews"@),
        },
{
    let json = match parse_value(output) {
        Ok(json) => json,
        Err(e) => {
            return Err(parse_error("Erro ao parsear reviews", e));
        },
    };
    let mut found: Vec<PullRequestReview> = Vec::new();
    match member(&json, "reviews") {
        Some(Json::Array(items)) => {
            let mut i: usize = 0;
            while i < items.len()
                invariant
                    i <= items.len(),
                    found@.len() == i,
                    forall|k: int| 0 <= k < i ==> (#[trigger] found@[k]).renders(items@[k]),
                decreases items.len() - i,
            {
                found.push(review_of(&items[i]));
                i = i + 1;
            }
        },
        _ => {},
    }
    Ok(found)
}

/// The comments that the answer holds under `comments`; an answer that is
/// no JSON value fails with `PARSE_ERROR`.
pub fn parse_comments(output: &str) -> (r: AppResult<Vec<PullRequestComment>>)
    ensures
        match r {
            Ok(found) => {
                &&& json_value(output@) matches Some(json)
                &&& found@.len() == items_of(field(json, "comments"@)).len()
                &&& forall|i: int|
                    0 <= i < found@.len() ==> (#[trigger] found@[i]).renders(
                        items_of(field(json, "comments"@))[i],
                    )
            },
            Err(e) => json_value(output@) is None && e.reported("PARSE_ERROR"@, "Erro ao parsear comments"@),
        },
{
    let json = match parse_value(output) {
        Ok(json) => json,
        Err(e) => {
            return Err(parse_error("Erro ao parsear comments", e));
        },
    };
    let mut found: Vec<PullRequestComment> = Vec::new();
    match member(&json, "comments") {
        Some(Json::Array(items)) => {
            let mut i: usize = 0;
            while i < items.len()
                invariant
                    i <= items.len(),
                    found@.len() == i,
                    forall|k: int| 0 <= k < i ==> (#[trigger] found@[k]).renders(items@[k]),
                decreases items.len() - i,
            {
                found.push(comment_of(&items[i]));
                i = i + 1;
            }
        },
        _ => {},
    }
    Ok(found)
}

/// The changed files that the answer holds under `files`; an answer that
/// is no JSON value fails with `PARSE_ERROR`.
pub fn parse_files(output: &str) -> (r: AppResult<Vec<PullRequestFile>>)
    ensures
        match r {
            Ok(found) => {
                &&& json_value(output@) matches Some(json)
                &&& found@.len() == items_of(field(json, "files"@)).len()
                &&& forall|i: int|
                    0 <= i < found@.len() ==> (#[trigger] found@[i]).renders(
                        items_of(field(json, "files"@))[i],
                    )
            },
            Err(e) => json_value(output@) is None && e.reported("PARSE_ERROR"@, "Erro ao parsear files"@),
        },
{
    let json = match parse_value(output) {
        Ok(json) => json,
        Err(e) => {
            return Err(parse_error("Erro ao parsear files", e));
        },
    };
    let mut found: Vec<PullRequestFile> = Vec::new();
    match member(&json, "files") {
        Some(Json::Array(items)) => {
            let mut i: usize = 0;
            while i < items.len()
                invariant
                    i <= items.len(),
                    found@.len() == i,
                    forall|k: int| 0 <= k < i ==> (#[trigger] found@[k]).renders(items@[k]),
                decreases items.len() - i,
            {
                found.push(file_of(&items[i]));
                i = i + 1;
            }
        },
        _ => {},
    }
    Ok(found)
}

} // verus!
