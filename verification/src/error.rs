//! Error taxonomy of the dispatch layer: preparation failures (bad URL, bad
//! header value, failed body encoding), the timeout, and transport failures,
//! with the exhaustive conversions between the inward and outward families.

use vstd::prelude::*;

verus! {

/// Why a request URL was rejected during preparation.
#[derive(Debug, Clone, Copy, PartialEq, Eq, Structural)]
pub enum InvalidUrl {
    MissingScheme,
    UnknownScheme,
    MissingHost,
}

/// An HTTP-layer preparation failure: a header name or value that does not
/// pass validation.
#[derive(Debug, Clone, Copy, PartialEq, Eq, Structural)]
pub enum HttpError {
    InvalidHeaderName,
    InvalidHeaderValue,
}

/// A failure detected before any send operation is created.
#[derive(Debug, Clone, Copy, PartialEq, Eq, Structural)]
pub enum PrepForSendingError {
    Url(InvalidUrl),
    Http(HttpError),
}

/// The error family reported when freezing a request head for later reuse.
#[derive(Debug, Clone, Copy, PartialEq, Eq, Structural)]
pub enum FreezeRequestError {
    Url(InvalidUrl),
    Http(HttpError),
}

/// The outward error family of an actual send: preparation failures plus a
/// dedicated timeout variant, a body-encoding failure carrying the encoder's
/// message, and an opaque transport failure.
#[derive(Debug, Clone, PartialEq)]
pub enum SendRequestError {
    Url(InvalidUrl),
    Http(HttpError),
    Timeout,
    Error(String),
    Transport(String),
}

impl PrepForSendingError {
    /// Exhaustive mapping into the freeze-time error family.
    pub fn into_freeze_error(self) -> (r: FreezeRequestError)
        ensures
            r == (match self {
                PrepForSendingError::Url(e) => FreezeRequestError::Url(e),
                PrepForSendingError::Http(e) => FreezeRequestError::Http(e),
            }),
    {
        match self {
            PrepForSendingError::Url(e) => FreezeRequestError::Url(e),
            PrepForSendingError::Http(e) => FreezeRequestError::Http(e),
        }
    }

    /// Exhaustive mapping into the send-time error family.
    pub fn into_send_error(self) -> (r: SendRequestError)
        ensures
            r == (match self {
                PrepForSendingError::Url(e) => SendRequestError::Url(e),
                PrepForSendingError::Http(e) => SendRequestError::Http(e),
            }),
    {
        match self {
            PrepForSendingError::Url(e) => SendRequestError::Url(e),
            PrepForSendingError::Http(e) => SendRequestError::Http(e),
        }
    }
}

} // verus!
