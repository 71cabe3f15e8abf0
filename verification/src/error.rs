//! How an operation fails: a classification, what the platform answered,
//! if it answered, and the message for the caller.

use vstd::prelude::*;

verus! {

/// The ways in which an operation fails.
#[derive(Clone, Copy, Debug, PartialEq, Eq, Structural)]
pub enum ErrorKind {
    /// No response was had: the connection, the name lookup, the secure
    /// channel or the reading of the body failed.
    Transport,
    /// The platform answered with a status outside the success class.
    HttpStatus,
    /// The platform refused the access token (status 401).
    AuthExpired,
    /// The platform's answer was not the JSON that was expected.
    Decode,
    /// The exchange that was to bring a new access token failed.
    RefreshFailed,
    /// The platform answered with no prediction where one was expected.
    EmptyResult,
}

/// A failed operation.
#[derive(Clone, Debug, PartialEq, Eq)]
pub struct ApiError {
    /// The classification.
    pub kind: ErrorKind,
    /// The status of the response, where there was one.
    pub status: Option<u16>,
    /// The body of the response, where there was one; empty otherwise.
    pub body: String,
    /// The message for the caller.
    pub message: String,
}

/// The mathematical content of an [`ApiError`].
pub struct ErrorView {
    pub kind: ErrorKind,
    pub status: Option<u16>,
    pub body: Seq<char>,
    pub message: Seq<char>,
}

impl View for ApiError {
    type V = ErrorView;

    open spec fn view(&self) -> ErrorView {
        ErrorView {
            kind: self.kind,
            status: self.status,
            body: self.body@,
            message: self.message@,
        }
    }
}

/// The failure of a request that brought no response, described by `detail`.
pub open spec fn transport_error(detail: Seq<char>) -> ErrorView {
    ErrorView { kind: ErrorKind::Transport, status: None, body: Seq::empty(), message: detail }
}

/// The failure of a refresh exchange that failed with `cause`: the cause's
/// status, body and message under the classification `RefreshFailed`.
pub open spec fn refresh_error(cause: ErrorView) -> ErrorView {
    ErrorView { kind: ErrorKind::RefreshFailed, ..cause }
}

impl ApiError {
    /// The failure of a request that brought no response.
    pub fn transport(detail: String) -> (r: ApiError)
        ensures
            r@ == transport_error(detail@),
    {
        ApiError { kind: ErrorKind::Transport, status: None, body: String::new(), message: detail }
    }

    /// This failure as the failure of a refresh exchange.
    pub fn into_refresh_failure(self) -> (r: ApiError)
        ensures
            r@ == refresh_error(self@),
    {
        ApiError {
            kind: ErrorKind::RefreshFailed,
            status: self.status,
            body: self.body,
            message: self.message,
        }
    }
}

} // verus!
