//! The one error of the library, with its wire code, its message and its HTTP status.

use vstd::prelude::*;

use crate::text::cat;

verus! {

/// What can go wrong. The failures of the gRPC client and of the file system come as the text
/// that they render to.
#[derive(Debug)]
pub enum Error {
    InvalidRequest(String),
    Daemon(String),
    Grpc(String),
    Cancelled,
    Resource(String),
    Ble(String),
    Io(String),
}

/// An [`Error`] with its texts as character sequences.
pub enum ErrorView {
    InvalidRequest(Seq<char>),
    Daemon(Seq<char>),
    Grpc(Seq<char>),
    Cancelled,
    Resource(Seq<char>),
    Ble(Seq<char>),
    Io(Seq<char>),
}

impl View for Error {
    type V = ErrorView;

    open spec fn view(&self) -> ErrorView {
        match self {
            Error::InvalidRequest(s) => ErrorView::InvalidRequest(s@),
            Error::Daemon(s) => ErrorView::Daemon(s@),
            Error::Grpc(s) => ErrorView::Grpc(s@),
            Error::Cancelled => ErrorView::Cancelled,
            Error::Resource(s) => ErrorView::Resource(s@),
            Error::Ble(s) => ErrorView::Ble(s@),
            Error::Io(s) => ErrorView::Io(s@),
        }
    }
}

impl ErrorView {
    /// The stable code that the wire carries for the error.
    pub open spec fn code(self) -> Seq<char> {
        match self {
            ErrorView::InvalidRequest(_) => "invalidRequest"@,
            ErrorView::Daemon(_) => "daemon"@,
            ErrorView::Grpc(_) => "grpc"@,
            ErrorView::Cancelled => "cancelled"@,
            ErrorView::Resource(_) => "resource"@,
            ErrorView::Ble(_) => "ble"@,
            ErrorView::Io(_) => "io"@,
        }
    }

    /// The words for the user.
    pub open spec fn message(self) -> Seq<char> {
        match self {
            ErrorView::InvalidRequest(s) => "invalid request: "@ + s,
            ErrorView::Daemon(s) => "daemon: "@ + s,
            ErrorView::Grpc(s) => "grpc: "@ + s,
            ErrorView::Cancelled => "cancelled"@,
            ErrorView::Resource(s) => "resource: "@ + s,
            ErrorView::Ble(s) => "ble: "@ + s,
            ErrorView::Io(s) => s,
        }
    }

    /// The HTTP status of a handler that fails with the error.
    pub open spec fn status(self) -> u16 {
        match self {
            ErrorView::InvalidRequest(_) => 400,
            ErrorView::Resource(_) => 400,
            ErrorView::Cancelled => 499,
            ErrorView::Daemon(_) => 502,
            ErrorView::Grpc(_) => 502,
            ErrorView::Ble(_) => 500,
            ErrorView::Io(_) => 500,
        }
    }
}

/// The `{code, message}` body that a failed HTTP request is answered with, and its status.
pub struct HttpError {
    pub status: u16,
    pub code: String,
    pub message: String,
}

impl Error {
    /// Stable wire code for the WS `error {code, message}` message.
    pub fn code(&self) -> (code: &'static str)
        ensures
            code@ == self@.code(),
    {
        match self {
            Error::InvalidRequest(_) => "invalidRequest",
            Error::Daemon(_) => "daemon",
            Error::Grpc(_) => "grpc",
            Error::Cancelled => "cancelled",
            Error::Resource(_) => "resource",
            Error::Ble(_) => "ble",
            Error::Io(_) => "io",
        }
    }

    /// The message that accompanies the code.
    pub fn message(&self) -> (message: String)
        ensures
            message@ == self@.message(),
    {
        match self {
            Error::InvalidRequest(s) => cat("invalid request: ", s.as_str()),
            Error::Daemon(s) => cat("daemon: ", s.as_str()),
            Error::Grpc(s) => cat("grpc: ", s.as_str()),
            Error::Cancelled => "cancelled".to_owned(),
            Error::Resource(s) => cat("resource: ", s.as_str()),
            Error::Ble(s) => cat("ble: ", s.as_str()),
            Error::Io(s) => s.clone(),
        }
    }

    /// The HTTP status of a handler that fails. The resource root is validated at startup, so a
    /// resource error later is a bad reference of the caller.
    pub fn status(&self) -> (status: u16)
        ensures
            status == self@.status(),
    {
        match self {
            Error::InvalidRequest(_) | Error::Resource(_) => 400,
            Error::Cancelled => 499,
            Error::Daemon(_) | Error::Grpc(_) => 502,
            Error::Ble(_) | Error::Io(_) => 500,
        }
    }

    /// The answer to an HTTP request whose handler failed: the same `{code, message}` as the WS
    /// `error`, so that callers parse one error shape.
    pub fn into_response(self) -> (r: HttpError)
        ensures
            r.status == self@.status(),
            r.code@ == self@.code(),
            r.message@ == self@.message(),
    {
        HttpError { status: self.status(), code: self.code().to_owned(), message: self.message() }
    }
}

/// What the wire and the user are told of each kind of error, whatever its details.
pub proof fn every_error_is_told_by_its_kind(details: Seq<char>)
    ensures
        ErrorView::InvalidRequest(details).code() == "invalidRequest"@,
        ErrorView::InvalidRequest(details).message() == "invalid request: "@ + details,
        ErrorView::Daemon(details).code() == "daemon"@,
        ErrorView::Daemon(details).message() == "daemon: "@ + details,
        ErrorView::Grpc(details).code() == "grpc"@,
        ErrorView::Grpc(details).message() == "grpc: "@ + details,
        ErrorView::Cancelled.code() == "cancelled"@,
        ErrorView::Cancelled.message() == "cancelled"@,
        ErrorView::Resource(details).code() == "resource"@,
        ErrorView::Resource(details).message() == "resource: "@ + details,
        ErrorView::Ble(details).code() == "ble"@,
        ErrorView::Ble(details).message() == "ble: "@ + details,
        ErrorView::Io(details).code() == "io"@,
        ErrorView::Io(details).message() == details,
{
}

/// The status of a failed request says whose fault it is: the caller's for a bad request or a bad
/// reference, nobody's for a cancellation, the daemon's where the daemon or its transport failed,
/// and the helper's for anything else.
pub proof fn a_status_says_whose_fault_it_is(error: ErrorView)
    ensures
        error.status() == 400 <==> error is InvalidRequest || error is Resource,
        error.status() == 499 <==> error is Cancelled,
        error.status() == 502 <==> error is Daemon || error is Grpc,
        error.status() == 500 <==> error is Ble || error is Io,
{
}

/// Two errors have the same code only if they are of one kind.
pub proof fn codes_tell_the_kinds_apart(a: ErrorView, b: ErrorView)
    requires
        a.code() == b.code(),
    ensures
        a is InvalidRequest <==> b is InvalidRequest,
        a is Daemon <==> b is Daemon,
        a is Grpc <==> b is Grpc,
        a is Cancelled <==> b is Cancelled,
        a is Resource <==> b is Resource,
        a is Ble <==> b is Ble,
        a is Io <==> b is Io,
{
    reveal_strlit("invalidRequest");
    reveal_strlit("daemon");
    reveal_strlit("grpc");
    reveal_strlit("cancelled");
    reveal_strlit("resource");
    reveal_strlit("ble");
    reveal_strlit("io");
    let (x, y) = (a.code(), b.code());
    assert(x.len() == y.len());
    assert(x[0] == y[0]);
}

} // verus!
