//! Translators of the topic-creation endpoint.
//!
//! Creation is a two-call pipeline: the first call creates the topic, the
//! second fetches the created entity — fetching an entity stays the business
//! of the one get call. The second call's input is derived from the first
//! call's output; if either call fails, the whole request fails.

use vstd::prelude::*;

use crate::backend::messages_api::{
    CreateTopicRequest, CreateTopicResponse, GetTopicRequest, GetTopicResponse,
};
use crate::error::AppError;
use crate::user::AppUser;

verus! {

/// Inbound document: the title of the topic to create.
#[derive(Clone, Debug)]
pub struct Request {
    pub title: String,
}

/// Outward document: the created topic, as the get call reports it.
#[derive(Clone, Debug)]
pub struct Response {
    pub topic: Topic,
}

#[derive(Clone, Debug)]
pub struct Topic {
    pub topic_id: String,
    pub title: String,
}

impl CreateTopicRequest {
    /// Builds the creation request; the owning user is attached by the
    /// handler.
    pub fn from(req: Request) -> (r: CreateTopicRequest)
        ensures
            r.title == Some(req.title),
            r.user_id is None,
    {
        CreateTopicRequest { title: Some(req.title), user_id: None }
    }
}

/// What the endpoint sends as its first call for an authenticated caller.
pub fn create_topic_request(user: AppUser, req: Request) -> (r: CreateTopicRequest)
    ensures
        r.title == Some(req.title),
        r.user_id == Some(user.user_id),
{
    let mut r = CreateTopicRequest::from(req);
    r.user_id = Some(user.user_id);
    r
}

/// The second call of the pipeline, derived from the first call's output:
/// fetch the topic the backend just created, scoped to the caller.
pub fn get_topic_request(res: CreateTopicResponse, user: AppUser) -> (r: GetTopicRequest)
    ensures
        r.topic_id == res.topic_id,
        r.user_id == Some(user.user_id),
{
    GetTopicRequest { topic_id: res.topic_id, user_id: Some(user.user_id) }
}

impl Response {
    /// Builds the outward document out of the get call's response; a
    /// response without the topic or its fields is a backend that omitted
    /// promised data.
    pub fn try_from(res: GetTopicResponse) -> (r: Result<Response, AppError>)
        ensures
            match r {
                Ok(out) => res.topic matches Some(t) && t.topic_id == Some(out.topic.topic_id)
                    && t.title == Some(out.topic.title),
                Err(e) => e == AppError::Internal && !(res.topic matches Some(t)
                    && t.topic_id is Some && t.title is Some),
            },
    {
        match res.topic {
            Some(t) => match (t.topic_id, t.title) {
                (Some(topic_id), Some(title)) => Ok(
                    Response { topic: Topic { topic_id, title } },
                ),
                _ => Err(AppError::Internal),
            },
            None => Err(AppError::Internal),
        }
    }
}

} // verus!
