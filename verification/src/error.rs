//! Backend error representation and the error-to-status classification.

use vstd::prelude::*;

verus! {

/// The closed set of failure kinds a backend may report.
#[derive(Clone, Copy, Debug, PartialEq, Eq, Structural)]
pub enum ErrorType {
    Unknown,
    NotFound,
}

/// A backend-reported failure: a kind that selects the HTTP status, and a
/// human-readable message surfaced verbatim in the response body.
#[derive(Debug)]
pub struct Error {
    pub message: String,
    pub etype: ErrorType,
}

/// Mathematical model of an [`Error`].
pub struct ErrorView {
    pub message: Seq<char>,
    pub etype: ErrorType,
}

impl View for Error {
    type V = ErrorView;

    open spec fn view(&self) -> ErrorView {
        ErrorView { message: self.message@, etype: self.etype }
    }
}

impl Error {
    /// An error of the generic kind, classified as a server error.
    pub fn new(msg: &str) -> (r: Self)
        ensures
            r@.message == msg@,
            r@.etype == ErrorType::Unknown,
    {
        Error { message: msg.to_owned(), etype: ErrorType::Unknown }
    }

    /// An error reporting that a requested resource is absent.
    pub fn not_found(msg: &str) -> (r: Self)
        ensures
            r@.message == msg@,
            r@.etype == ErrorType::NotFound,
    {
        Error { message: msg.to_owned(), etype: ErrorType::NotFound }
    }
}

/// The status code an error kind maps to: `NotFound` is 404, everything
/// else fails safe to 500.
pub open spec fn classify_spec(k: ErrorType) -> u16 {
    match k {
        ErrorType::NotFound => 404,
        ErrorType::Unknown => 500,
    }
}

/// Map a backend error to the HTTP status code that reports it.
pub fn classify(e: &Error) -> (s: u16)
    ensures
        s == classify_spec(e.etype),
{
    match e.etype {
        ErrorType::NotFound => 404,
        ErrorType::Unknown => 500,
    }
}

/// Law: classification is total and deterministic. It depends on the error
/// kind alone; `NotFound` yields 404 and every other kind yields 500, so
/// every error resolves to a status.
pub proof fn lemma_classify_total(k: ErrorType)
    ensures
        classify_spec(k) == if k is NotFound { 404u16 } else { 500u16 },
        classify_spec(k) == 404 || classify_spec(k) == 500,
{
}

} // verus!
