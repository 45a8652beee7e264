//! Translators of the topic-membership-creation endpoint.

use vstd::prelude::*;

use crate::backend::messages_api::{CreateTopicUserRequest, CreateTopicUserResponse};
use crate::error::AppError;
use crate::user::AppUser;

verus! {

/// Inbound document: the topic the caller joins.
#[derive(Clone, Debug)]
pub struct Request {
    pub topic_id: String,
}

/// Outward document: the created membership record.
#[derive(Clone, Debug)]
pub struct Response {
    pub topic_user: TopicUser,
}

#[derive(Clone, Debug)]
pub struct TopicUser {
    pub topic_user_id: String,
}

/// What the endpoint sends to the backend for an authenticated caller: a
/// membership of the caller in the inbound topic.
pub fn create_topic_user_request(user: AppUser, req: Request) -> (r: CreateTopicUserRequest)
    ensures
        r.topic_id == Some(req.topic_id),
        r.user_id == Some(user.user_id),
{
    CreateTopicUserRequest { topic_id: Some(req.topic_id), user_id: Some(user.user_id) }
}

impl Response {
    /// Builds the outward document; a response without the new identifier is
    /// a backend that omitted promised data.
    pub fn try_from(res: CreateTopicUserResponse) -> (r: Result<Response, AppError>)
        ensures
            match r {
                Ok(out) => res.topic_user_id == Some(out.topic_user.topic_user_id),
                Err(e) => e == AppError::Internal && res.topic_user_id is None,
            },
    {
        match res.topic_user_id {
            Some(topic_user_id) => Ok(Response { topic_user: TopicUser { topic_user_id } }),
            None => Err(AppError::Internal),
        }
    }
}

} // verus!
