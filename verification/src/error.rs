//! What can go wrong while a visitor subscribes.

use crate::protocol::{Reply, ReplyView, Response, ResponseView, StatusCode};
use vstd::prelude::*;
use vstd::std_specs::convert::FromSpecImpl;

verus! {

/// The reasons for which a subscription is not completed. Only a
/// `ValidationError` is the visitor's to mend.
#[derive(Debug, PartialEq, Eq)]
pub enum Error {
    /// The form was refused; the text says why.
    ValidationError(String),
    /// The repository failed while the subscriber was saved.
    DatabaseError(String),
    /// The repository failed while the confirmation token was saved.
    StoreTokenError(String),
    /// The confirmation email could not be sent.
    SendEmailError(String),
}

pub enum ErrorView {
    ValidationError(Seq<char>),
    DatabaseError(Seq<char>),
    StoreTokenError(Seq<char>),
    SendEmailError(Seq<char>),
}

impl View for Error {
    type V = ErrorView;

    open spec fn view(&self) -> ErrorView {
        match self {
            Error::ValidationError(reason) => ErrorView::ValidationError(reason@),
            Error::DatabaseError(detail) => ErrorView::DatabaseError(detail@),
            Error::StoreTokenError(detail) => ErrorView::StoreTokenError(detail@),
            Error::SendEmailError(detail) => ErrorView::SendEmailError(detail@),
        }
    }
}

impl ErrorView {
    /// The status code that the error is answered with.
    pub open spec fn status_code(self) -> StatusCode {
        match self {
            ErrorView::ValidationError(_) => StatusCode::BadRequest,
            _ => StatusCode::InternalServerError,
        }
    }

    /// The error in words: the reason alone for a refused form, and the
    /// fault behind a sentence that says where it struck otherwise.
    pub open spec fn message(self) -> Seq<char> {
        match self {
            ErrorView::ValidationError(reason) => reason,
            ErrorView::DatabaseError(detail) => "A database error was encountered: "@ + detail,
            ErrorView::StoreTokenError(detail) => {
                "A database error was encountered while trying to store a subscription token: "@
                    + detail
            },
            ErrorView::SendEmailError(detail) => "An http client error was encountered: "@
                + detail,
        }
    }
}

impl ErrorView {
    /// How the error is answered. A refused form is answered with status 400
    /// and the reason; a fault on the server's side with a bare status 500,
    /// while what happened goes to the log.
    pub open spec fn into_response(self) -> ResponseView {
        match self {
            ErrorView::ValidationError(reason) => ResponseView {
                reply: ReplyView::Invalid(reason),
                report: None,
            },
            _ => ResponseView {
                reply: ReplyView::Status(StatusCode::InternalServerError),
                report: Some(self.message()),
            },
        }
    }
}

impl Error {
    /// How the error is answered: the visitor learns why a form was refused,
    /// and nothing of a fault on the server's side but that there was one.
    pub fn into_response(self) -> (response: Response)
        ensures
            response@ == self@.into_response(),
    {
        match self {
            Error::ValidationError(reason) => Response {
                reply: Reply::Invalid(reason),
                report: None,
            },
            other => {
                let report = other.message();
                Response {
                    reply: Reply::Status(StatusCode::InternalServerError),
                    report: Some(report),
                }
            },
        }
    }

    /// The status code that the error is answered with: 400 for a refused
    /// form, 500 for every fault on the server's side.
    pub fn status_code(&self) -> (code: StatusCode)
        ensures
            code == self@.status_code(),
    {
        match self {
            Error::ValidationError(_) => StatusCode::BadRequest,
            _ => StatusCode::InternalServerError,
        }
    }

    /// The error in words.
    pub fn message(&self) -> (text: String)
        ensures
            text@ == self@.message(),
    {
        match self {
            Error::ValidationError(reason) => reason.clone(),
            Error::DatabaseError(detail) => String::from_str(
                "A database error was encountered: ",
            ).concat(detail.as_str()),
            Error::StoreTokenError(detail) => String::from_str(
                "A database error was encountered while trying to store a subscription token: ",
            ).concat(detail.as_str()),
            Error::SendEmailError(detail) => String::from_str(
                "An http client error was encountered: ",
            ).concat(detail.as_str()),
        }
    }
}

impl From<String> for Error {
    fn from(value: String) -> (e: Error) {
        Error::ValidationError(value)
    }
}

impl FromSpecImpl<String> for Error {
    open spec fn obeys_from_spec() -> bool {
        true
    }

    open spec fn from_spec(value: String) -> Error {
        Error::ValidationError(value)
    }
}

} // verus!
