//! Translators of the topic-membership-deletion endpoint.

use vstd::prelude::*;

use crate::backend::messages_api::DeleteTopicUserRequest;
use crate::user::AppUser;

verus! {

/// Inbound document: the membership record to delete.
#[derive(Clone, Debug)]
pub struct Request {
    pub topic_user_id: String,
}

/// Outward document: deletion reports nothing back.
#[derive(Clone, Debug)]
pub struct Response {}

impl DeleteTopicUserRequest {
    /// Builds the deletion request; the acting user is attached by the
    /// handler.
    pub fn from(req: Request) -> (r: DeleteTopicUserRequest)
        ensures
            r.topic_user_id == Some(req.topic_user_id),
            r.user_id is None,
    {
        DeleteTopicUserRequest { topic_user_id: Some(req.topic_user_id), user_id: None }
    }
}

/// What the endpoint sends to the backend for an authenticated caller.
pub fn delete_topic_user_request(user: AppUser, req: Request) -> (r: DeleteTopicUserRequest)
    ensures
        r.topic_user_id == Some(req.topic_user_id),
        r.user_id == Some(user.user_id),
{
    let mut r = DeleteTopicUserRequest::from(req);
    r.user_id = Some(user.user_id);
    r
}

} // verus!
