//! The failures of a request and their mapping to an HTTP status and body.

use vstd::prelude::*;
use vstd::string::*;
use crate::reply::{Reply, FORBIDDEN, NOT_FOUND, RANGE_NOT_SATISFIABLE, UNPROCESSABLE_ENTITY};

verus! {

/// A failure raised by a handler.
#[derive(Debug)]
pub enum Error {
    /// A `start` or `end` value is no index; holds the parser's own words.
    ParseError(String),
    /// A required parameter is absent.
    MissingParameters,
    /// No question is stored under the requested id.
    QuestionNotFound,
    /// The requested range starts behind the end of the list.
    OutOfRange,
}

/// The mathematical content of an [`Error`].
pub enum ErrorView {
    ParseError(Seq<char>),
    MissingParameters,
    QuestionNotFound,
    OutOfRange,
}

impl View for Error {
    type V = ErrorView;

    open spec fn view(&self) -> ErrorView {
        match self {
            Error::ParseError(detail) => ErrorView::ParseError(detail@),
            Error::MissingParameters => ErrorView::MissingParameters,
            Error::QuestionNotFound => ErrorView::QuestionNotFound,
            Error::OutOfRange => ErrorView::OutOfRange,
        }
    }
}

/// The text that a client reads for an error.
pub open spec fn error_text(e: ErrorView) -> Seq<char> {
    match e {
        ErrorView::ParseError(detail) => "Cannot parse parameter: "@ + detail,
        ErrorView::MissingParameters => "Missing parameter"@,
        ErrorView::QuestionNotFound => "Question not found"@,
        ErrorView::OutOfRange => "Range out of bounds"@,
    }
}

impl Error {
    /// The text that a client reads for this error.
    pub fn to_string(&self) -> (text: String)
        ensures
            text@ == error_text(self@),
    {
        match self {
            Error::ParseError(detail) => {
                let mut text = String::from_str("Cannot parse parameter: ");
                text.append(detail.as_str());
                text
            },
            Error::MissingParameters => String::from_str("Missing parameter"),
            Error::QuestionNotFound => String::from_str("Question not found"),
            Error::OutOfRange => String::from_str("Range out of bounds"),
        }
    }
}

/// Why a request got no regular answer, as the transport layer reports it.
#[derive(Debug)]
pub enum Rejection {
    /// A handler failed with a typed error.
    Handler(Error),
    /// The cross-origin policy refused the request; holds the policy's message.
    CorsForbidden(String),
    /// The request body did not deserialise; holds the deserialiser's message.
    BodyDeserialize(String),
    /// Anything else, an unmatched route included; holds the raw diagnostic.
    Other(String),
}

/// The mathematical content of a [`Rejection`].
pub enum RejectionView {
    Handler(ErrorView),
    CorsForbidden(Seq<char>),
    BodyDeserialize(Seq<char>),
    Other(Seq<char>),
}

impl View for Rejection {
    type V = RejectionView;

    open spec fn view(&self) -> RejectionView {
        match self {
            Rejection::Handler(e) => RejectionView::Handler(e@),
            Rejection::CorsForbidden(message) => RejectionView::CorsForbidden(message@),
            Rejection::BodyDeserialize(message) => RejectionView::BodyDeserialize(message@),
            Rejection::Other(diagnostic) => RejectionView::Other(diagnostic@),
        }
    }
}

/// The status code owed to a rejection.
pub open spec fn rejection_status(r: RejectionView) -> u16 {
    match r {
        RejectionView::Handler(_) => RANGE_NOT_SATISFIABLE,
        RejectionView::CorsForbidden(_) => FORBIDDEN,
        RejectionView::BodyDeserialize(_) => UNPROCESSABLE_ENTITY,
        RejectionView::Other(_) => NOT_FOUND,
    }
}

/// The body owed to a rejection.
pub open spec fn rejection_body(r: RejectionView) -> Seq<char> {
    match r {
        RejectionView::Handler(e) => error_text(e),
        RejectionView::CorsForbidden(message) => message,
        RejectionView::BodyDeserialize(message) => message,
        RejectionView::Other(diagnostic) => diagnostic,
    }
}

/// Turns a rejection into the reply sent to the client. Total: every
/// rejection gets a reply, none is handed back.
pub fn return_error(r: Rejection) -> (res: Result<Reply, Rejection>)
    ensures
        res matches Ok(reply) && reply.status == rejection_status(r@) && reply.body@
            == rejection_body(r@),
{
    match r {
        Rejection::Handler(error) => Ok(
            Reply { status: RANGE_NOT_SATISFIABLE, body: error.to_string() },
        ),
        Rejection::CorsForbidden(message) => Ok(Reply { status: FORBIDDEN, body: message }),
        Rejection::BodyDeserialize(message) => Ok(
            Reply { status: UNPROCESSABLE_ENTITY, body: message },
        ),
        Rejection::Other(diagnostic) => Ok(Reply { status: NOT_FOUND, body: diagnostic }),
    }
}

} // verus!
