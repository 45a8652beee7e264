//! Uniform outward classification of every failure.
//!
//! Whatever goes wrong while a request is handled — a malformed inbound
//! document, a failed backend call, a join that cannot resolve a reference —
//! is mapped to one of a fixed set of outward error classes. The response
//! sent to the caller carries only the status code of the class and an empty
//! body; backend detail is never leaked outward.

use vstd::prelude::*;

verus! {

/// The outward error taxonomy.
#[derive(Clone, Copy, Debug, PartialEq, Eq, Structural)]
pub enum AppError {
    /// The inbound document is malformed (detected before any backend call).
    BadRequest,
    /// A backend reported that the forwarded input was invalid.
    ValidationFailed,
    /// A backend reported that a requested entity does not exist.
    NotFound,
    /// The auth guard rejected the request on a required-auth endpoint.
    Unauthorized,
    /// A join-consistency fault, a missing expected field in a backend
    /// response, or an unclassified backend/transport failure.
    Internal,
}

/// The classification a backend attaches to a failed call.
#[derive(Clone, Copy, Debug, PartialEq, Eq, Structural)]
pub enum BackendCode {
    /// The backend rejected the forwarded input.
    InvalidArgument,
    /// The backend could not find the requested entity.
    NotFound,
    /// Any other failure, transport faults included.
    Other,
}

/// A classified failure returned by a backend call.
#[derive(Clone, Copy, Debug, PartialEq, Eq, Structural)]
pub struct BackendError {
    pub code: BackendCode,
}

impl AppError {
    /// The HTTP status code of this error class.
    pub open spec fn spec_status_code(self) -> u16 {
        match self {
            AppError::BadRequest => 400,
            AppError::ValidationFailed => 422,
            AppError::NotFound => 404,
            AppError::Unauthorized => 401,
            AppError::Internal => 500,
        }
    }

    /// The HTTP status code sent outward for this error class; the response
    /// body stays empty.
    pub fn status_code(&self) -> (code: u16)
        ensures
            code == self.spec_status_code(),
    {
        match self {
            AppError::BadRequest => 400,
            AppError::ValidationFailed => 422,
            AppError::NotFound => 404,
            AppError::Unauthorized => 401,
            AppError::Internal => 500,
        }
    }

    /// How a failed backend call is classified outward.
    pub open spec fn spec_from_backend(e: BackendError) -> AppError {
        match e.code {
            BackendCode::InvalidArgument => AppError::ValidationFailed,
            BackendCode::NotFound => AppError::NotFound,
            BackendCode::Other => AppError::Internal,
        }
    }

    /// Classifies a failed backend call: invalid forwarded input becomes
    /// `ValidationFailed`, a missing entity becomes `NotFound`, and anything
    /// else — transport faults included — becomes `Internal`.
    pub fn from_backend(e: BackendError) -> (r: AppError)
        ensures
            r == AppError::spec_from_backend(e),
    {
        match e.code {
            BackendCode::InvalidArgument => AppError::ValidationFailed,
            BackendCode::NotFound => AppError::NotFound,
            BackendCode::Other => AppError::Internal,
        }
    }
}

} // verus!
