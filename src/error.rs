//! The error taxonomy and its mapping onto replies.

use vstd::prelude::*;

verus! {

/// Every failure that the pipeline can raise.
#[derive(Clone, Debug, PartialEq, Eq)]
pub enum Error {
    /// The store could not be reached.
    MongoError(String),
    /// A query or write against the store failed.
    MongoQueryError(String),
    /// A required field of a document is missing or has the wrong type.
    MongoDataError(String),
    /// No document matched the given key.
    NoEntryFoundError(String),
    /// A malformed identifier.
    InvalidIDError(String),
    /// A view could not be rendered.
    TemplateError(String),
    /// A file could not be read.
    ReadFileError(String),
    /// Unknown email or wrong password; the two are never told apart.
    InvalidCredentials,
    /// A session could not be created.
    CreateSessionError,
    /// A session could not be removed.
    LogoutError,
    /// The request carries no valid session.
    NoSessionFoundError,
    /// The request body could not be read as the expected form.
    MalformedRequestBody,
}

/// Why a request was refused before or inside its handler.
#[derive(Clone, Debug, PartialEq, Eq)]
pub enum Rejection {
    /// No route matches the path.
    NotFound,
    /// A route matches the path but not the method.
    MethodNotAllowed,
    /// A failure raised by a handler or a pipeline stage.
    App(Error),
}

/// Is `e` the malformed-identifier error for `s`.
pub open spec fn is_invalid_id(e: Error, s: Seq<char>) -> bool {
    e matches Error::InvalidIDError(v) && v@ == s
}

/// What is sent back for a rejection.
#[derive(Clone, Debug, PartialEq, Eq)]
pub enum Reply {
    /// A redirect to `location`.
    Redirect { location: String },
    /// An error body with a status code.
    Status { code: u16, message: String },
}

/// The status code that an application error is surfaced with.
pub open spec fn error_status(e: Error) -> u16 {
    match e {
        Error::MalformedRequestBody => 400,
        Error::InvalidIDError(_) => 400,
        Error::NoEntryFoundError(_) => 400,
        _ => 500,
    }
}

/// The message sent with a status code.
pub open spec fn status_message(code: u16) -> Seq<char> {
    if code == 400 {
        "Bad Request"@
    } else if code == 404 {
        "Not Found"@
    } else if code == 405 {
        "Method Not Allowed"@
    } else {
        "Internal Server Error"@
    }
}

/// The reply for a rejection: a permanent redirect to the login view when no
/// valid session was found, "Invalid Body" for a body that could not be
/// read, otherwise a status code with a generic message.
pub open spec fn reply_for(r: Rejection) -> (Seq<char>, u16) {
    match r {
        Rejection::NotFound => (status_message(404), 404),
        Rejection::MethodNotAllowed => (status_message(405), 405),
        Rejection::App(e) => match e {
            Error::NoSessionFoundError => ("/login"@, 301),
            Error::MalformedRequestBody => ("Invalid Body"@, 400),
            _ => (status_message(error_status(e)), error_status(e)),
        },
    }
}

/// Whether a rejection becomes a redirect.
pub open spec fn redirects(r: Rejection) -> bool {
    r matches Rejection::App(Error::NoSessionFoundError)
}

impl Reply {
    /// The location of a redirect, or the message of an error body, and the
    /// status code (301 for a redirect).
    pub open spec fn parts(self) -> (Seq<char>, u16) {
        match self {
            Reply::Redirect { location } => (location@, 301),
            Reply::Status { code, message } => (message@, code),
        }
    }
}

fn status_reply(code: u16) -> (r: Reply)
    ensures
        r is Status,
        r.parts() == (status_message(code), code),
{
    let message = if code == 400 {
        "Bad Request"
    } else if code == 404 {
        "Not Found"
    } else if code == 405 {
        "Method Not Allowed"
    } else {
        "Internal Server Error"
    };
    Reply::Status { code, message: String::from_str(message) }
}

/// The status code of an application error: 400 for a malformed body, a
/// malformed identifier or a missing entry named by a route parameter, 500
/// for every other kind.
pub fn status_of(e: &Error) -> (r: u16)
    ensures
        r == error_status(*e),
{
    match e {
        Error::MalformedRequestBody => 400,
        Error::InvalidIDError(_) => 400,
        Error::NoEntryFoundError(_) => 400,
        _ => 500,
    }
}

/// Turns a rejection into the reply the caller sees: `NoSessionFoundError`
/// redirects to `/login`; a body that could not be read is 400 with
/// "Invalid Body"; every other failure is a status code with a
/// generic message that never carries the failure's detail.
pub fn handle_rejection(err: &Rejection) -> (r: Reply)
    ensures
        r.parts() == reply_for(*err),
        r is Redirect <==> redirects(*err),
{
    match err {
        Rejection::NotFound => status_reply(404),
        Rejection::MethodNotAllowed => status_reply(405),
        Rejection::App(e) => match e {
            Error::NoSessionFoundError => Reply::Redirect { location: String::from_str("/login") },
            Error::MalformedRequestBody => Reply::Status {
                code: 400,
                message: String::from_str("Invalid Body"),
            },
            _ => status_reply(status_of(e)),
        },
    }
}

} // verus!
