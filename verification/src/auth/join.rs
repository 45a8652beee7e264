//! Translators of the join endpoint: a phone number goes in, a pending
//! verification comes back.

use vstd::prelude::*;

use crate::backend::users_api::{JoinRequest, JoinResponse};
use crate::error::AppError;
use crate::numbers::{parse_i64, spec_parse_i64};

verus! {

/// Inbound document: the phone number to join with, as a decimal string.
#[derive(Clone, Debug)]
pub struct Request {
    pub phone_number: String,
}

/// Outward document: the verification the auth backend opened.
#[derive(Clone, Debug)]
pub struct Response {
    pub verification: Verification,
}

#[derive(Clone, Debug)]
pub struct Verification {
    pub verification_id: String,
}

impl JoinRequest {
    /// Builds the auth backend's join request; a phone number that is not a
    /// decimal integer is rejected before any backend call.
    pub fn try_from(req: Request) -> (r: Result<JoinRequest, AppError>)
        ensures
            match r {
                Ok(br) => br.phone_number is Some && br.phone_number == spec_parse_i64(
                    req.phone_number@,
                ),
                Err(e) => e == AppError::BadRequest && spec_parse_i64(req.phone_number@) is None,
            },
    {
        match parse_i64(req.phone_number.as_str()) {
            Some(n) => Ok(JoinRequest { phone_number: Some(n) }),
            None => Err(AppError::BadRequest),
        }
    }
}

impl Response {
    /// Builds the outward join document; a response without a verification
    /// identifier is a backend that omitted promised data.
    pub fn try_from(res: JoinResponse) -> (r: Result<Response, AppError>)
        ensures
            match r {
                Ok(out) => res.verification matches Some(v) && v.verification_id == Some(
                    out.verification.verification_id,
                ),
                Err(e) => e == AppError::Internal && !(res.verification matches Some(v)
                    && v.verification_id is Some),
            },
    {
        match res.verification {
            Some(v) => match v.verification_id {
                Some(id) => Ok(Response { verification: Verification { verification_id: id } }),
                None => Err(AppError::Internal),
            },
            None => Err(AppError::Internal),
        }
    }
}

} // verus!
