//! The error value every operation returns: a stable code to branch on, a
//! message for the user, and an optional detail string.

use vstd::prelude::*;
use crate::text::decimal;
use crate::text::decimal_string;

verus! {

/// `git2::Error`, carried as an opaque value.
#[verifier::external_type_specification]
#[verifier::external_body]
pub struct ExGitError(git2::Error);

/// `std::io::Error`, carried as an opaque value.
#[verifier::external_type_specification]
#[verifier::external_body]
pub struct ExIoError(std::io::Error);

/// `serde_json::Error`, carried as an opaque value.
#[verifier::external_type_specification]
#[verifier::external_body]
pub struct ExJsonError(serde_json::Error);

/// `git2::Error::message`: the text libgit2 attached to the failure. Nothing
/// is claimed about what it says.
#[verifier::external_body]
pub(crate) fn git_error_message(e: &git2::Error) -> (text: String) {
    e.message().to_string()
}

/// The `Display` rendering of a `std::io::Error`. Nothing is claimed about
/// what it says.
#[verifier::external_body]
pub(crate) fn io_error_text(e: &std::io::Error) -> (text: String) {
    e.to_string()
}

/// The `Display` rendering of a `serde_json::Error`. Nothing is claimed about
/// what it says.
#[verifier::external_body]
pub(crate) fn json_error_text(e: &serde_json::Error) -> (text: String) {
    e.to_string()
}

/// What went wrong: a stable code, a message for the user, and an
/// optional detail.
#[derive(Debug, Clone)]
pub struct AppError {
    pub code: String,
    pub message: String,
    pub details: Option<String>,
}

/// What every operation returns.
pub type AppResult<T> = Result<T, AppError>;

impl AppError {
    /// The error carries `code` and `message` and no detail.
    pub open spec fn plain(self, code: Seq<char>, message: Seq<char>) -> bool {
        &&& self.code@ == code
        &&& self.message@ == message
        &&& self.details is None
    }

    /// The error carries `code`, `message` and the detail `details`.
    pub open spec fn detailed(self, code: Seq<char>, message: Seq<char>, details: Seq<char>) -> bool {
        &&& self.code@ == code
        &&& self.message@ == message
        &&& self.details matches Some(d) && d@ == details
    }

    /// The error carries `code` and `message`; its detail is present but
    /// comes from outside and is not constrained.
    pub open spec fn reported(self, code: Seq<char>, message: Seq<char>) -> bool {
        &&& self.code@ == code
        &&& self.message@ == message
        &&& self.details is Some
    }

    /// The error reports a failure of the object store.
    pub open spec fn is_store_failure(self) -> bool {
        self.reported("GIT_ERROR"@, "Erro do Git"@)
    }

    /// What `describe` renders: the message, followed by a colon, a space and
    /// the detail when there is one.
    pub open spec fn rendering(self) -> Seq<char> {
        match self.details {
            Some(d) => self.message@ + seq![':', ' '] + d@,
            None => self.message@,
        }
    }

    /// An error without detail.
    pub fn new(code: &str, message: &str) -> (e: Self)
        ensures
            e.plain(code@, message@),
    {
        AppError { code: code.to_owned(), message: message.to_owned(), details: None }
    }

    /// An error with a detail.
    pub fn with_details(code: &str, message: &str, details: &str) -> (e: Self)
        ensures
            e.detailed(code@, message@, details@),
    {
        AppError {
            code: code.to_owned(),
            message: message.to_owned(),
            details: Some(details.to_owned()),
        }
    }

    /// The text shown to a user.
    pub fn describe(&self) -> (s: String)
        ensures
            s@ == self.rendering(),
    {
        let mut s = self.message.clone();
        match &self.details {
            Some(d) => {
                s.push(':');
                s.push(' ');
                s.push_str(d.as_str());
            },
            None => {},
        }
        s
    }

    /// No repository is open.
    pub fn no_repo() -> (e: Self)
        ensures
            e.plain("NO_REPO"@, "Nenhum repositório aberto"@),
    {
        Self::new("NO_REPO", "Nenhum repositório aberto")
    }

    /// The directory at `path` is no repository.
    pub fn invalid_repo(path: &str) -> (e: Self)
        ensures
            e.detailed("INVALID_REPO"@, "Diretório não é um repositório Git"@, path@),
    {
        Self::with_details("INVALID_REPO", "Diretório não é um repositório Git", path)
    }

    /// Nothing is at `path`.
    pub fn repo_not_found(path: &str) -> (e: Self)
        ensures
            e.detailed("REPO_NOT_FOUND"@, "Caminho não encontrado"@, path@),
    {
        Self::with_details("REPO_NOT_FOUND", "Caminho não encontrado", path)
    }

    /// The repository has no identity to sign commits with.
    pub fn git_user_not_configured() -> (e: Self)
        ensures
            e.detailed(
                "GIT_USER_NOT_CONFIGURED"@,
                "Usuário Git não configurado"@,
                "Configure com: git config --global user.name \"Seu Nome\" && git config --global user.email \"seu@email.com\""@,
            ),
    {
        Self::with_details(
            "GIT_USER_NOT_CONFIGURED",
            "Usuário Git não configurado",
            "Configure com: git config --global user.name \"Seu Nome\" && git config --global user.email \"seu@email.com\"",
        )
    }

    /// No branch is called `name`.
    pub fn branch_not_found(name: &str) -> (e: Self)
        ensures
            e.detailed("BRANCH_NOT_FOUND"@, "Branch não encontrada"@, name@),
    {
        Self::with_details("BRANCH_NOT_FOUND", "Branch não encontrada", name)
    }

    /// A branch called `name` exists already.
    pub fn branch_already_exists(name: &str) -> (e: Self)
        ensures
            e.detailed("BRANCH_EXISTS"@, "Branch já existe"@, name@),
    {
        Self::with_details("BRANCH_EXISTS", "Branch já existe", name)
    }

    /// The branch that is checked out cannot be deleted.
    pub fn cannot_delete_current_branch() -> (e: Self)
        ensures
            e.plain("CANNOT_DELETE_CURRENT"@, "Não é possível deletar a branch atual"@),
    {
        Self::new("CANNOT_DELETE_CURRENT", "Não é possível deletar a branch atual")
    }

    /// Nothing is staged.
    pub fn nothing_to_commit() -> (e: Self)
        ensures
            e.plain("NOTHING_TO_COMMIT"@, "Nenhuma alteração para commit"@),
    {
        Self::new("NOTHING_TO_COMMIT", "Nenhuma alteração para commit")
    }

    /// No commit has the id `hash`.
    pub fn commit_not_found(hash: &str) -> (e: Self)
        ensures
            e.detailed("COMMIT_NOT_FOUND"@, "Commit não encontrado"@, hash@),
    {
        Self::with_details("COMMIT_NOT_FOUND", "Commit não encontrado", hash)
    }

    /// The merge ran into conflicts.
    pub fn merge_conflict() -> (e: Self)
        ensures
            e.plain("MERGE_CONFLICT"@, "Conflitos de merge detectados"@),
    {
        Self::new("MERGE_CONFLICT", "Conflitos de merge detectados")
    }

    /// No remote is called `name`.
    pub fn remote_not_found(name: &str) -> (e: Self)
        ensures
            e.detailed("REMOTE_NOT_FOUND"@, "Remote não encontrado"@, name@),
    {
        Self::with_details("REMOTE_NOT_FOUND", "Remote não encontrado", name)
    }

    /// The push failed, for the reason in `details`.
    pub fn push_failed(details: &str) -> (e: Self)
        ensures
            e.detailed("PUSH_FAILED"@, "Falha ao fazer push"@, details@),
    {
        Self::with_details("PUSH_FAILED", "Falha ao fazer push", details)
    }

    /// The pull failed, for the reason in `details`.
    pub fn pull_failed(details: &str) -> (e: Self)
        ensures
            e.detailed("PULL_FAILED"@, "Falha ao fazer pull"@, details@),
    {
        Self::with_details("PULL_FAILED", "Falha ao fazer pull", details)
    }

    /// The stash stack has no entry at `index`.
    pub fn stash_not_found(index: usize) -> (e: Self)
        ensures
            e.detailed("STASH_NOT_FOUND"@, "Stash não encontrado"@, decimal(index as nat)),
    {
        let text = decimal_string(index as u64);
        Self::with_details("STASH_NOT_FOUND", "Stash não encontrado", text.as_str())
    }

    /// A failure of the object store, with the message it gave.
    pub fn git_error(e: git2::Error) -> (r: Self)
        ensures
            r.reported("GIT_ERROR"@, "Erro do Git"@),
    {
        let text = git_error_message(&e);
        Self::with_details("GIT_ERROR", "Erro do Git", text.as_str())
    }

    /// A failure of the file system, as it renders itself.
    pub fn io_error(e: std::io::Error) -> (r: Self)
        ensures
            r.reported("IO_ERROR"@, "Erro de I/O"@),
    {
        let text = io_error_text(&e);
        Self::with_details("IO_ERROR", "Erro de I/O", text.as_str())
    }

    /// A failure to read or write JSON, as it renders itself.
    pub fn json_error(e: serde_json::Error) -> (r: Self)
        ensures
            r.reported("JSON_ERROR"@, "Erro ao processar JSON"@),
    {
        let text = json_error_text(&e);
        Self::with_details("JSON_ERROR", "Erro ao processar JSON", text.as_str())
    }

    /// An invariant did not hold.
    pub fn internal(message: &str) -> (e: Self)
        ensures
            e.plain("INTERNAL_ERROR"@, message@),
    {
        Self::new("INTERNAL_ERROR", message)
    }
}

impl From<git2::Error> for AppError {
    fn from(e: git2::Error) -> (r: Self)
        ensures
            r.is_store_failure(),
    {
        Self::git_error(e)
    }
}

impl vstd::std_specs::convert::FromSpecImpl<git2::Error> for AppError {
    open spec fn obeys_from_spec() -> bool {
        false
    }

    open spec fn from_spec(e: git2::Error) -> Self {
        arbitrary()
    }
}

impl From<std::io::Error> for AppError {
    fn from(e: std::io::Error) -> (r: Self)
        ensures
            r.reported("IO_ERROR"@, "Erro de I/O"@),
    {
        Self::io_error(e)
    }
}

impl vstd::std_specs::convert::FromSpecImpl<std::io::Error> for AppError {
    open spec fn obeys_from_spec() -> bool {
        false
    }

    open spec fn from_spec(e: std::io::Error) -> Self {
        arbitrary()
    }
}

impl From<serde_json::Error> for AppError {
    fn from(e: serde_json::Error) -> (r: Self)
        ensures
            r.reported("JSON_ERROR"@, "Erro ao processar JSON"@),
    {
        Self::json_error(e)
    }
}

impl vstd::std_specs::convert::FromSpecImpl<serde_json::Error> for AppError {
    open spec fn obeys_from_spec() -> bool {
        false
    }

    open spec fn from_spec(e: serde_json::Error) -> Self {
        arbitrary()
    }
}

} // verus!
