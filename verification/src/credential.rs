//! Choosing the credential among the places it may come from.

use vstd::prelude::*;
use crate::error::RenameError;

verus! {

/// The environment variable that holds the bearer credential.
pub const TOKEN_VARIABLE: &'static str = "GITHUB_TOKEN";

/// The credential to use, given what the process environment held and what it
/// held once the local environment file was loaded: the first that is there.
pub open spec fn chosen_credential(
    from_environment: Option<Seq<char>>,
    from_file: Option<Seq<char>>,
) -> Option<Seq<char>> {
    match from_environment {
        Some(token) => Some(token),
        None => from_file,
    }
}

/// The text of an optional string.
pub open spec fn text_of(value: Option<String>) -> Option<Seq<char>> {
    match value {
        Some(text) => Some(text@),
        None => None,
    }
}

/// Picks the credential. The environment takes precedence over the file; with
/// neither, the credential is missing.
pub fn resolve_credential(from_environment: Option<String>, from_file: Option<String>) -> (token:
    Result<String, RenameError>)
    ensures
        match chosen_credential(text_of(from_environment), text_of(from_file)) {
            Some(text) => token is Ok && token->Ok_0@ == text,
            None => token == Err::<String, RenameError>(RenameError::MissingCredential),
        },
{
    match from_environment {
        Some(token) => Ok(token),
        None => match from_file {
            Some(token) => Ok(token),
            None => Err(RenameError::MissingCredential),
        },
    }
}

} // verus!
