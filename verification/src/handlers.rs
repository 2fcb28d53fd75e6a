pub mod booking;
pub mod tables;
pub mod user;

use vstd::prelude::*;

use crate::server::number::IntegerErrorKind;

verus! {

/// Why the server could not serve a request.
#[derive(Clone, Debug, PartialEq, Eq)]
pub enum HandlerError {
    /// The route needs a query string and the request has none.
    NoQuery,
    /// The query lacks the named parameter.
    MissingParam(String),
    /// A parameter that must be an integer is not one.
    InvalidInteger(IntegerErrorKind),
    /// The user that was asked for does not exist.
    UserNotFound,
}

/// A `HandlerError` with its texts as character sequences.
pub enum ErrorView {
    NoQuery,
    MissingParam(Seq<char>),
    InvalidInteger(IntegerErrorKind),
    UserNotFound,
}

impl View for HandlerError {
    type V = ErrorView;

    open spec fn view(&self) -> ErrorView {
        match self {
            HandlerError::NoQuery => ErrorView::NoQuery,
            HandlerError::MissingParam(name) => ErrorView::MissingParam(name@),
            HandlerError::InvalidInteger(kind) => ErrorView::InvalidInteger(*kind),
            HandlerError::UserNotFound => ErrorView::UserNotFound,
        }
    }
}

/// The text that std gives for an integer parse error of this kind.
pub open spec fn integer_error_text(kind: IntegerErrorKind) -> Seq<char> {
    match kind {
        IntegerErrorKind::Empty => "cannot parse integer from empty string"@,
        IntegerErrorKind::InvalidDigit => "invalid digit found in string"@,
        IntegerErrorKind::PosOverflow => "number too large to fit in target type"@,
        IntegerErrorKind::NegOverflow => "number too small to fit in target type"@,
        IntegerErrorKind::Zero => "number would be zero for non-zero type"@,
        IntegerErrorKind::Other => "invalid integer"@,
    }
}

/// The text that a failed request is answered with, for each error.
pub open spec fn error_text(e: ErrorView) -> Seq<char> {
    match e {
        ErrorView::NoQuery => "{\"status\":\"No query\"}"@,
        ErrorView::MissingParam(name) => "Need param '"@ + name + "'"@,
        ErrorView::InvalidInteger(kind) => integer_error_text(kind),
        ErrorView::UserNotFound => "Not found"@,
    }
}

impl HandlerError {
    /// The text that the failed request is answered with.
    pub fn message(&self) -> (res: String)
        ensures
            res@ == error_text(self@),
    {
        match self {
            HandlerError::NoQuery => "{\"status\":\"No query\"}".to_owned(),
            HandlerError::MissingParam(name) => {
                let mut text = "Need param '".to_owned();
                text.append(name.as_str());
                text.append("'");
                text
            },
            HandlerError::InvalidInteger(kind) => match kind {
                IntegerErrorKind::Empty => "cannot parse integer from empty string".to_owned(),
                IntegerErrorKind::InvalidDigit => "invalid digit found in string".to_owned(),
                IntegerErrorKind::PosOverflow => "number too large to fit in target type".to_owned(),
                IntegerErrorKind::NegOverflow => "number too small to fit in target type".to_owned(),
                IntegerErrorKind::Zero => "number would be zero for non-zero type".to_owned(),
                IntegerErrorKind::Other => "invalid integer".to_owned(),
            },
            HandlerError::UserNotFound => "Not found".to_owned(),
        }
    }
}

} // verus!
