//! The current-session endpoint: who the caller is, if anyone.
//!
//! The endpoint uses the optional form of the auth guard: an authenticated
//! caller is looked up at the users backend, an anonymous caller is answered
//! directly with "no user".

use vstd::prelude::*;

use crate::backend::users_api::{GetUserRequest, GetUserResponse};
use crate::error::AppError;
use crate::user::AppUser;

verus! {

/// Outward document: the caller's identity, or nothing for an anonymous
/// caller.
#[derive(Clone, Debug)]
pub struct Response {
    pub user: Option<User>,
}

#[derive(Clone, Debug)]
pub struct User {
    pub user_id: String,
}

/// How the endpoint proceeds for a caller: ask the users backend, or answer
/// anonymously without any backend call.
#[derive(Clone, Debug)]
pub enum MePlan {
    Call(GetUserRequest),
    Respond(Response),
}

/// Decides the endpoint's one backend call: an authenticated caller is looked
/// up by identifier, an anonymous caller gets the empty document at once.
pub fn me_plan(user: Option<AppUser>) -> (r: MePlan)
    ensures
        match r {
            MePlan::Call(req) => user matches Some(u) && req.user_id == Some(u.user_id),
            MePlan::Respond(resp) => user is None && resp.user is None,
        },
{
    match user {
        Some(u) => MePlan::Call(GetUserRequest { user_id: Some(u.user_id) }),
        None => MePlan::Respond(Response { user: None }),
    }
}

impl Response {
    /// Builds the outward session document; a response without a user record
    /// or without its identifier is a backend that omitted promised data.
    pub fn try_from(res: GetUserResponse) -> (r: Result<Response, AppError>)
        ensures
            match r {
                Ok(out) => res.user matches Some(u) && out.user matches Some(ou) && u.user_id
                    == Some(ou.user_id),
                Err(e) => e == AppError::Internal && !(res.user matches Some(u)
                    && u.user_id is Some),
            },
    {
        match res.user {
            Some(u) => match u.user_id {
                Some(id) => Ok(Response { user: Some(User { user_id: id }) }),
                None => Err(AppError::Internal),
            },
            None => Err(AppError::Internal),
        }
    }
}

} // verus!
