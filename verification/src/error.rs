//! The errors of the client, and the rule that turns an HTTP status into one.

use crate::text::{decimal, decimal_text, labelled, labelled_cause, shown};
use reqwest::Error as TransportError;
use serde_json::Error as JsonError;
use url::ParseError as UrlError;
use vstd::prelude::*;
use vstd::string::StringExecFns;

verus! {

/// `reqwest::Error`, carried through as it came: nothing is known of its contents.
#[verifier::external_type_specification]
#[verifier::external_body]
pub struct ExTransportError(TransportError);

/// `url::ParseError`, carried through as it came: nothing is known of its contents.
#[verifier::external_type_specification]
#[verifier::external_body]
pub struct ExUrlError(UrlError);

/// `serde_json::Error`, carried through as it came: nothing is known of its contents.
#[verifier::external_type_specification]
#[verifier::external_body]
pub struct ExJsonError(JsonError);

/// What can go wrong in one call. Exactly one kind is active per failed call.
#[derive(Debug)]
pub enum Error {
    /// The transport failed.
    Http(TransportError),
    /// A path did not resolve to a URL.
    Url(UrlError),
    /// A body was not the JSON that was expected.
    Json(JsonError),
    /// Any failure that has no kind of its own; holds the status and the body.
    ApiError(String),
    /// A credential was refused (status 401), or cannot stand in a header.
    AuthError(String),
    /// Status 404.
    NotFound(String),
    /// Status 400.
    BadRequest(String),
    /// Status 403.
    Forbidden(String),
    /// Status 422.
    ValidationError(String),
}

/// An error as contracts see it: its kind, and its text where it holds one.
pub enum ErrorView {
    Http,
    Url,
    Json,
    ApiError(Seq<char>),
    AuthError(Seq<char>),
    NotFound(Seq<char>),
    BadRequest(Seq<char>),
    Forbidden(Seq<char>),
    ValidationError(Seq<char>),
}

impl View for Error {
    type V = ErrorView;

    open spec fn view(&self) -> ErrorView {
        match *self {
            Error::Http(_) => ErrorView::Http,
            Error::Url(_) => ErrorView::Url,
            Error::Json(_) => ErrorView::Json,
            Error::ApiError(m) => ErrorView::ApiError(m@),
            Error::AuthError(m) => ErrorView::AuthError(m@),
            Error::NotFound(m) => ErrorView::NotFound(m@),
            Error::BadRequest(m) => ErrorView::BadRequest(m@),
            Error::Forbidden(m) => ErrorView::Forbidden(m@),
            Error::ValidationError(m) => ErrorView::ValidationError(m@),
        }
    }
}

/// The text of the catch-all error: the status in decimal, then the body as it came.
pub open spec fn unclassified_text(status: u16, body: Seq<char>) -> Seq<char> {
    "HTTP "@ + decimal(status as nat) + ": "@ + body
}

/// The error that a status stands for, with the response body that came with it.
/// The mapping is total: a status without a kind of its own gives `ApiError`.
pub open spec fn status_error(status: u16, body: Seq<char>) -> ErrorView {
    if status == 400 {
        ErrorView::BadRequest(body)
    } else if status == 401 {
        ErrorView::AuthError(body)
    } else if status == 403 {
        ErrorView::Forbidden(body)
    } else if status == 404 {
        ErrorView::NotFound(body)
    } else if status == 422 {
        ErrorView::ValidationError(body)
    } else {
        ErrorView::ApiError(unclassified_text(status, body))
    }
}

/// Each of the five statuses has its own kind, and no other status has that kind.
pub proof fn lemma_status_kinds(status: u16, body: Seq<char>)
    ensures
        status_error(status, body) is BadRequest <==> status == 400,
        status_error(status, body) is AuthError <==> status == 401,
        status_error(status, body) is Forbidden <==> status == 403,
        status_error(status, body) is NotFound <==> status == 404,
        status_error(status, body) is ValidationError <==> status == 422,
        status_error(status, body) is ApiError <==> !(status == 400 || status == 401 || status
            == 403 || status == 404 || status == 422),
        !(status_error(status, body) is Http),
        !(status_error(status, body) is Url),
        !(status_error(status, body) is Json),
{
}

/// The five kinds hold the body unchanged, so two bodies that differ give two errors that
/// differ; the catch-all holds it behind the status.
pub proof fn lemma_status_error_keeps_body(status: u16, body: Seq<char>)
    ensures
        match status_error(status, body) {
            ErrorView::BadRequest(m) => m == body,
            ErrorView::AuthError(m) => m == body,
            ErrorView::Forbidden(m) => m == body,
            ErrorView::NotFound(m) => m == body,
            ErrorView::ValidationError(m) => m == body,
            ErrorView::ApiError(m) => m.len() >= body.len() && m.subrange(
                m.len() - body.len(),
                m.len() as int,
            ) == body,
            _ => false,
        },
{
    let m = unclassified_text(status, body);
    assert(m.subrange(m.len() - body.len(), m.len() as int) =~= body);
}

/// Classifies a response that was not a success.
pub fn error_from_status(status: u16, body: &str) -> (e: Error)
    ensures
        e@ == status_error(status, body@),
{
    if status == 400 {
        Error::BadRequest(body.to_owned())
    } else if status == 401 {
        Error::AuthError(body.to_owned())
    } else if status == 403 {
        Error::Forbidden(body.to_owned())
    } else if status == 404 {
        Error::NotFound(body.to_owned())
    } else if status == 422 {
        Error::ValidationError(body.to_owned())
    } else {
        let mut text = "HTTP ".to_owned();
        let number = decimal_text(status as u64);
        text.append(number.as_str());
        text.append(": ");
        text.append(body);
        Error::ApiError(text)
    }
}

/// The words that open the message of each kind.
pub open spec fn label(e: ErrorView) -> Seq<char> {
    match e {
        ErrorView::Http => "HTTP error: "@,
        ErrorView::Url => "URL error: "@,
        ErrorView::Json => "JSON error: "@,
        ErrorView::ApiError(_) => "API error: "@,
        ErrorView::AuthError(_) => "Authentication error: "@,
        ErrorView::NotFound(_) => "Resource not found: "@,
        ErrorView::BadRequest(_) => "Bad request: "@,
        ErrorView::Forbidden(_) => "Forbidden: "@,
        ErrorView::ValidationError(_) => "Validation error: "@,
    }
}

/// Whether `text` is the message of `e`: the label of its kind, and behind it the text
/// that it holds or, for the three kinds that wrap a foreign error, what that error
/// shows of itself.
pub open spec fn is_message(e: Error, text: Seq<char>) -> bool {
    match e {
        Error::Http(cause) => exists|shows: Seq<char>| #[trigger]
            shown(cause, shows) && text == label(e@) + shows,
        Error::Url(cause) => exists|shows: Seq<char>| #[trigger]
            shown(cause, shows) && text == label(e@) + shows,
        Error::Json(cause) => exists|shows: Seq<char>| #[trigger]
            shown(cause, shows) && text == label(e@) + shows,
        Error::ApiError(m) => text == label(e@) + m@,
        Error::AuthError(m) => text == label(e@) + m@,
        Error::NotFound(m) => text == label(e@) + m@,
        Error::BadRequest(m) => text == label(e@) + m@,
        Error::Forbidden(m) => text == label(e@) + m@,
        Error::ValidationError(m) => text == label(e@) + m@,
    }
}

impl Error {
    /// The message of this error for a reader.
    pub fn message(&self) -> (s: String)
        ensures
            is_message(*self, s@),
            label(self@).is_prefix_of(s@),
    {
        match self {
            Error::Http(e) => labelled_cause("HTTP error: ", e),
            Error::Url(e) => labelled_cause("URL error: ", e),
            Error::Json(e) => labelled_cause("JSON error: ", e),
            Error::ApiError(m) => labelled("API error: ", m.as_str()),
            Error::AuthError(m) => labelled("Authentication error: ", m.as_str()),
            Error::NotFound(m) => labelled("Resource not found: ", m.as_str()),
            Error::BadRequest(m) => labelled("Bad request: ", m.as_str()),
            Error::Forbidden(m) => labelled("Forbidden: ", m.as_str()),
            Error::ValidationError(m) => labelled("Validation error: ", m.as_str()),
        }
    }
}

impl From<TransportError> for Error {
    fn from(e: TransportError) -> (r: Error) {
        Error::Http(e)
    }
}

impl vstd::std_specs::convert::FromSpecImpl<TransportError> for Error {
    open spec fn obeys_from_spec() -> bool {
        true
    }

    open spec fn from_spec(e: TransportError) -> Error {
        Error::Http(e)
    }
}

impl From<UrlError> for Error {
    fn from(e: UrlError) -> (r: Error) {
        Error::Url(e)
    }
}

impl vstd::std_specs::convert::FromSpecImpl<UrlError> for Error {
    open spec fn obeys_from_spec() -> bool {
        true
    }

    open spec fn from_spec(e: UrlError) -> Error {
        Error::Url(e)
    }
}

impl From<JsonError> for Error {
    fn from(e: JsonError) -> (r: Error) {
        Error::Json(e)
    }
}

impl vstd::std_specs::convert::FromSpecImpl<JsonError> for Error {
    open spec fn obeys_from_spec() -> bool {
        true
    }

    open spec fn from_spec(e: JsonError) -> Error {
        Error::Json(e)
    }
}

} // verus!
