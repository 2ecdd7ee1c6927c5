//! What can end a run, and how it reads.

use vstd::prelude::*;
use crate::naming::{KEBAB_TO_SNAKE, SNAKE_TO_KEBAB};
use crate::text::{decimal, push_decimal};

verus! {

/// A failure that ends the run.
#[derive(Debug, PartialEq, Eq)]
pub enum RenameError {
    /// The requested direction is neither of the two accepted values.
    InvalidArgument,
    /// No credential was found in either source.
    MissingCredential,
    /// The remote service could not be reached (`status` is `None`), or it
    /// answered the listing with a status other than success.
    RemoteError { status: Option<u16>, detail: String },
}

/// A `RenameError` with its text as sequences of characters.
#[verifier::ext_equal]
pub enum ErrorView {
    InvalidArgument,
    MissingCredential,
    RemoteError { status: Option<u16>, detail: Seq<char> },
}

impl View for RenameError {
    type V = ErrorView;

    open spec fn view(&self) -> ErrorView {
        match *self {
            RenameError::InvalidArgument => ErrorView::InvalidArgument,
            RenameError::MissingCredential => ErrorView::MissingCredential,
            RenameError::RemoteError { status, detail } => ErrorView::RemoteError {
                status,
                detail: detail@,
            },
        }
    }
}

impl ErrorView {
    /// The line that reports this failure. An invalid argument is answered
    /// with both accepted values.
    pub open spec fn message(self) -> Seq<char> {
        match self {
            ErrorView::InvalidArgument => "Invalid format, options are "@ + KEBAB_TO_SNAKE@
                + " or "@ + SNAKE_TO_KEBAB@,
            ErrorView::MissingCredential => "environment variable not found"@,
            ErrorView::RemoteError { status: None, detail } => detail,
            ErrorView::RemoteError { status: Some(code), detail } => "remote status "@ + decimal(
                code as nat,
            ) + ": "@ + detail,
        }
    }
}

impl RenameError {
    /// The line that reports this failure.
    pub fn message(&self) -> (line: String)
        ensures
            line@ == self@.message(),
    {
        match self {
            RenameError::InvalidArgument => {
                let mut line = String::from_str("Invalid format, options are ");
                line.append(KEBAB_TO_SNAKE);
                line.append(" or ");
                line.append(SNAKE_TO_KEBAB);
                line
            },
            RenameError::MissingCredential => String::from_str("environment variable not found"),
            RenameError::RemoteError { status: None, detail } => detail.clone(),
            RenameError::RemoteError { status: Some(code), detail } => {
                let mut line = String::from_str("remote status ");
                push_decimal(&mut line, *code);
                line.append(": ");
                line.append(detail.as_str());
                line
            },
        }
    }

}

impl Clone for RenameError {
    fn clone(&self) -> (copy: RenameError)
        ensures
            copy@ == self@,
    {
        match self {
            RenameError::InvalidArgument => RenameError::InvalidArgument,
            RenameError::MissingCredential => RenameError::MissingCredential,
            RenameError::RemoteError { status, detail } => RenameError::RemoteError {
                status: *status,
                detail: detail.clone(),
            },
        }
    }
}

} // verus!
