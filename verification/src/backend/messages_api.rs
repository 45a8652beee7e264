//! Message schemas of the messages and topics backend services.

use vstd::prelude::*;

verus! {

/// A reply into an existing thread.
#[derive(Clone, Debug)]
pub struct Regular {
    pub message_id: Option<String>,
}

/// The start of a new thread against one or more topics.
#[derive(Clone, Debug)]
pub struct Starting {
    pub topic_ids: Vec<String>,
}

/// The association of a message: either a reply or a new thread start.
#[derive(Clone, Debug)]
pub enum Tp {
    Regular(Regular),
    Starting(Starting),
}

#[derive(Clone, Debug)]
pub struct CreateMessageRequest {
    pub text: Option<String>,
    pub user_id: Option<String>,
    pub code: Option<String>,
    pub tp: Option<Tp>,
}

#[derive(Clone, Debug)]
pub struct CreateMessageResponse {
    pub message_id: Option<String>,
}

/// A conversation channel owned by a user.
#[derive(Clone, Debug)]
pub struct Topic {
    pub topic_id: Option<String>,
    pub user_id: Option<String>,
    pub title: Option<String>,
}

#[derive(Clone, Debug)]
pub struct GetTopicsRequest {
    pub user_ids: Vec<String>,
}

#[derive(Clone, Debug)]
pub struct GetTopicsResponse {
    pub topics: Vec<Topic>,
}

#[derive(Clone, Debug)]
pub struct GetTopicRequest {
    pub topic_id: Option<String>,
    pub user_id: Option<String>,
}

#[derive(Clone, Debug)]
pub struct GetTopicResponse {
    pub topic: Option<Topic>,
}

#[derive(Clone, Debug)]
pub struct CreateTopicRequest {
    pub title: Option<String>,
    pub user_id: Option<String>,
}

#[derive(Clone, Debug)]
pub struct CreateTopicResponse {
    pub topic_id: Option<String>,
}

/// The record of a user's membership in a topic.
#[derive(Clone, Debug)]
pub struct TopicUser {
    pub topic_user_id: Option<String>,
    pub topic_id: Option<String>,
}

#[derive(Clone, Debug)]
pub struct CreateTopicUserRequest {
    pub topic_id: Option<String>,
    pub user_id: Option<String>,
}

#[derive(Clone, Debug)]
pub struct CreateTopicUserResponse {
    pub topic_user_id: Option<String>,
}

#[derive(Clone, Debug)]
pub struct DeleteTopicUserRequest {
    pub topic_user_id: Option<String>,
    pub user_id: Option<String>,
}

#[derive(Clone, Debug)]
pub struct DeleteTopicUserResponse {}

#[derive(Clone, Debug)]
pub struct GetTopicsUsersRequest {
    pub topic_ids: Vec<String>,
    pub user_id: Option<String>,
}

#[derive(Clone, Debug)]
pub struct GetTopicsUsersResponse {
    pub topics_users: Vec<TopicUser>,
}

} // verus!
