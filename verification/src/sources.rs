//! Translators of the sources endpoint: the caller records another user as a
//! source.

use vstd::prelude::*;

use crate::backend::users_api::{CreateSourceRequest, CreateSourceResponse};
use crate::error::AppError;
use crate::user::AppUser;

verus! {

/// Inbound document: the user to record as a source.
#[derive(Clone, Debug)]
pub struct Request {
    pub user_id: String,
}

/// Outward document: the identifier of the created source.
#[derive(Clone, Debug)]
pub struct Response {
    pub source_id: String,
}

/// What the sources endpoint sends to the backend for an authenticated
/// caller: the caller owns the new source, the inbound user is referenced by
/// it.
pub fn create_source_request(user: AppUser, req: Request) -> (r: CreateSourceRequest)
    ensures
        r.user_id == Some(user.user_id),
        r.source_user_id == Some(req.user_id),
{
    CreateSourceRequest { user_id: Some(user.user_id), source_user_id: Some(req.user_id) }
}

impl Response {
    /// Builds the outward document; a response without the new identifier is
    /// a backend that omitted promised data.
    pub fn try_from(res: CreateSourceResponse) -> (r: Result<Response, AppError>)
        ensures
            match r {
                Ok(out) => res.source_id == Some(out.source_id),
                Err(e) => e == AppError::Internal && res.source_id is None,
            },
    {
        match res.source_id {
            Some(source_id) => Ok(Response { source_id }),
            None => Err(AppError::Internal),
        }
    }
}

} // verus!
