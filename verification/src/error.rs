//! The failure taxonomy of the extraction engine and its mapping to the
//! status codes that the surrounding service reports.

use vstd::prelude::*;

verus! {

/// How an extraction can fail.
///
/// `Maintenance` is the site-wide sentinel page; `NotFound` is a structural
/// shape mismatch or subject mismatch meaning the requested entity does not
/// exist; `UnexpectedPageContent` is any other structural or semantic parse
/// failure, meaning the page format has drifted from what the extractor
/// expects.
#[derive(Clone, Copy, Debug, PartialEq, Eq, Structural)]
pub enum TibiaError {
    Maintenance,
    NotFound,
    UnexpectedPageContent,
}

/// The error classes reported to API clients.
#[allow(non_camel_case_types)]
#[derive(Clone, Copy, Debug, PartialEq, Eq, Structural)]
pub enum ClientErrorCode {
    SERVICE_ERROR,
    RESOURCE_NOT_FOUND,
    INTERNAL_ERROR,
}

/// A client-facing error: an HTTP status, an error class and an optional
/// human-readable message.
#[derive(Clone, Copy, Debug)]
pub struct ClientError {
    pub status: u16,
    pub code: ClientErrorCode,
    pub message: Option<&'static str>,
}

impl TibiaError {
    /// The HTTP status that this failure maps to: maintenance is a retryable
    /// service-unavailable condition, a shape mismatch is not-found, and any
    /// other parse failure is an internal error.
    pub open spec fn spec_status_code(self) -> u16 {
        match self {
            TibiaError::Maintenance => 503u16,
            TibiaError::NotFound => 404u16,
            TibiaError::UnexpectedPageContent => 500u16,
        }
    }

    pub fn status_code(&self) -> (r: u16)
        ensures
            r == self.spec_status_code(),
    {
        match self {
            TibiaError::Maintenance => 503,
            TibiaError::NotFound => 404,
            TibiaError::UnexpectedPageContent => 500,
        }
    }

    /// The client-facing form of this failure.
    pub fn into_client_error(&self) -> (r: ClientError)
        ensures
            r.status == self.spec_status_code(),
            r.code == self.spec_client_error_code(),
    {
        match self {
            TibiaError::Maintenance => ClientError {
                status: 503,
                code: ClientErrorCode::SERVICE_ERROR,
                message: Some("The tibia website failed to process the underlying request"),
            },
            TibiaError::NotFound => ClientError {
                status: 404,
                code: ClientErrorCode::RESOURCE_NOT_FOUND,
                message: Some("The requested resource was not found."),
            },
            TibiaError::UnexpectedPageContent => ClientError {
                status: 500,
                code: ClientErrorCode::INTERNAL_ERROR,
                message: None,
            },
        }
    }

    pub open spec fn spec_client_error_code(self) -> ClientErrorCode {
        match self {
            TibiaError::Maintenance => ClientErrorCode::SERVICE_ERROR,
            TibiaError::NotFound => ClientErrorCode::RESOURCE_NOT_FOUND,
            TibiaError::UnexpectedPageContent => ClientErrorCode::INTERNAL_ERROR,
        }
    }
}

/// The JSON body sent with a client-facing error.
#[derive(Debug, Clone)]
pub struct PublicErrorBody {
    pub message: String,
}

impl PublicErrorBody {
    pub fn new(message: &str) -> (r: PublicErrorBody)
        ensures
            r.message@ == message@,
    {
        PublicErrorBody { message: message.to_owned() }
    }
}

} // verus!
