use git_gui::error::AppError;

#[test]
fn new_error_has_no_details() {
    let e = AppError::new("X", "y");
    assert_eq!(e.code, "X");
    assert_eq!(e.message, "y");
    assert!(e.details.is_none());
    assert_eq!(e.describe(), "y");
}

#[test]
fn with_details_keeps_all_three() {
    let e = AppError::with_details("A", "b", "c");
    assert_eq!(e.code, "A");
    assert_eq!(e.message, "b");
    assert_eq!(e.details.as_deref(), Some("c"));
    assert_eq!(e.describe(), "b: c");
}

#[test]
fn repository_errors() {
    let e = AppError::no_repo();
    assert_eq!(e.code, "NO_REPO");
    assert_eq!(e.message, "Nenhum repositório aberto");
    assert!(e.details.is_none());
    let e = AppError::invalid_repo("/tmp/x");
    assert_eq!(e.code, "INVALID_REPO");
    assert_eq!(e.message, "Diretório não é um repositório Git");
    assert_eq!(e.details.as_deref(), Some("/tmp/x"));
    let e = AppError::repo_not_found("/nowhere");
    assert_eq!(e.code, "REPO_NOT_FOUND");
    assert_eq!(e.message, "Caminho não encontrado");
    assert_eq!(e.details.as_deref(), Some("/nowhere"));
}

#[test]
fn git_user_not_configured_tells_how_to_configure() {
    let e = AppError::git_user_not_configured();
    assert_eq!(e.code, "GIT_USER_NOT_CONFIGURED");
    assert_eq!(e.message, "Usuário Git não configurado");
    assert_eq!(
        e.details.as_deref(),
        Some("Configure com: git config --global user.name \"Seu Nome\" && git config --global user.email \"seu@email.com\"")
    );
}

#[test]
fn branch_errors() {
    let e = AppError::branch_not_found("feature");
    assert_eq!(e.code, "BRANCH_NOT_FOUND");
    assert_eq!(e.message, "Branch não encontrada");
    assert_eq!(e.details.as_deref(), Some("feature"));
    let e = AppError::branch_already_exists("main");
    assert_eq!(e.code, "BRANCH_EXISTS");
    assert_eq!(e.message, "Branch já existe");
    assert_eq!(e.details.as_deref(), Some("main"));
    let e = AppError::cannot_delete_current_branch();
    assert_eq!(e.code, "CANNOT_DELETE_CURRENT");
    assert_eq!(e.message, "Não é possível deletar a branch atual");
    assert!(e.details.is_none());
}

#[test]
fn commit_and_merge_errors() {
    let e = AppError::nothing_to_commit();
    assert_eq!(e.code, "NOTHING_TO_COMMIT");
    assert_eq!(e.message, "Nenhuma alteração para commit");
    let e = AppError::commit_not_found("abc");
    assert_eq!(e.code, "COMMIT_NOT_FOUND");
    assert_eq!(e.message, "Commit não encontrado");
    assert_eq!(e.details.as_deref(), Some("abc"));
    let e = AppError::merge_conflict();
    assert_eq!(e.code, "MERGE_CONFLICT");
    assert_eq!(e.message, "Conflitos de merge detectados");
    assert!(e.details.is_none());
}

#[test]
fn remote_errors() {
    let e = AppError::remote_not_found("origin");
    assert_eq!(e.code, "REMOTE_NOT_FOUND");
    assert_eq!(e.message, "Remote não encontrado");
    assert_eq!(e.details.as_deref(), Some("origin"));
    let e = AppError::push_failed("denied");
    assert_eq!(e.code, "PUSH_FAILED");
    assert_eq!(e.message, "Falha ao fazer push");
    assert_eq!(e.details.as_deref(), Some("denied"));
    let e = AppError::pull_failed("offline");
    assert_eq!(e.code, "PULL_FAILED");
    assert_eq!(e.message, "Falha ao fazer pull");
    assert_eq!(e.details.as_deref(), Some("offline"));
}

#[test]
fn stash_not_found_renders_index() {
    let e = AppError::stash_not_found(42);
    assert_eq!(e.code, "STASH_NOT_FOUND");
    assert_eq!(e.message, "Stash não encontrado");
    assert_eq!(e.details.as_deref(), Some("42"));
    assert_eq!(e.describe(), "Stash não encontrado: 42");
    assert_eq!(AppError::stash_not_found(0).details.as_deref(), Some("0"));
    assert_eq!(
        AppError::stash_not_found(usize::MAX).details,
        Some(usize::MAX.to_string())
    );
}

#[test]
fn git_error_carries_the_store_message() {
    let e = AppError::git_error(git2::Error::from_str("boom"));
    assert_eq!(e.code, "GIT_ERROR");
    assert_eq!(e.message, "Erro do Git");
    assert_eq!(e.details.as_deref(), Some("boom"));
}

#[test]
fn io_error_carries_the_rendering() {
    let source = std::io::Error::new(std::io::ErrorKind::Other, "disk on fire");
    let expected = source.to_string();
    let e = AppError::io_error(source);
    assert_eq!(e.code, "IO_ERROR");
    assert_eq!(e.message, "Erro de I/O");
    assert_eq!(e.details, Some(expected));
}

#[test]
fn json_error_carries_the_rendering() {
    let source = serde_json::from_str::<serde_json::Value>("{").unwrap_err();
    let expected = source.to_string();
    let e = AppError::json_error(source);
    assert_eq!(e.code, "JSON_ERROR");
    assert_eq!(e.message, "Erro ao processar JSON");
    assert_eq!(e.details, Some(expected));
}

#[test]
fn internal_error_keeps_the_message() {
    let e = AppError::internal("broken");
    assert_eq!(e.code, "INTERNAL_ERROR");
    assert_eq!(e.message, "broken");
    assert!(e.details.is_none());
}
