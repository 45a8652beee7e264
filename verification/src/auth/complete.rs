//! Translators of the complete endpoint: a verification identifier and a
//! code go in, a signed credential comes back.

use vstd::prelude::*;

use crate::backend::users_api::{CompleteRequest, CompleteResponse};
use crate::error::AppError;

verus! {

/// Inbound document: the verification to complete and the received code.
#[derive(Clone, Debug)]
pub struct Request {
    pub verification_id: String,
    pub code: String,
}

/// Outward document: the credential the caller will present from now on.
#[derive(Clone, Debug)]
pub struct Response {
    pub jwt: String,
}

impl CompleteRequest {
    /// Builds the auth backend's complete request.
    pub fn from(req: Request) -> (r: CompleteRequest)
        ensures
            r.verification_id == Some(req.verification_id),
            r.code == Some(req.code),
    {
        CompleteRequest { verification_id: Some(req.verification_id), code: Some(req.code) }
    }
}

impl Response {
    /// Builds the outward complete document; a response without a credential
    /// is a backend that omitted promised data.
    pub fn try_from(res: CompleteResponse) -> (r: Result<Response, AppError>)
        ensures
            match r {
                Ok(out) => res.jwt == Some(out.jwt),
                Err(e) => e == AppError::Internal && res.jwt is None,
            },
    {
        match res.jwt {
            Some(jwt) => Ok(Response { jwt }),
            None => Err(AppError::Internal),
        }
    }
}

} // verus!
