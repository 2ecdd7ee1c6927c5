use repo_renamer::credential::TOKEN_VARIABLE;
use repo_renamer::{resolve_credential, RenameError};

#[test]
fn environment_takes_precedence() {
    let token = resolve_credential(Some("from-env".to_string()), Some("from-file".to_string()));
    assert_eq!(token, Ok("from-env".to_string()));
}

#[test]
fn environment_alone_is_enough() {
    assert_eq!(resolve_credential(Some("abc".to_string()), None), Ok("abc".to_string()));
}

#[test]
fn file_is_used_when_the_environment_has_none() {
    assert_eq!(resolve_credential(None, Some("from-file".to_string())), Ok("from-file".to_string()));
}

#[test]
fn neither_source_is_a_missing_credential() {
    assert_eq!(resolve_credential(None, None), Err(RenameError::MissingCredential));
}

#[test]
fn variable_name() {
    assert_eq!(TOKEN_VARIABLE, "GITHUB_TOKEN");
}
