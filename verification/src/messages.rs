//! Translators of the messages endpoint.
//!
//! The inbound document is a discriminated choice: a message is either a
//! reply into an existing thread (`message_id` populated) or the start of a
//! new thread against one or more topics (`topic_ids` populated). The
//! backend request's variant is selected by which field is populated; when
//! both are populated, reply-to-existing-thread takes precedence.

use vstd::prelude::*;

use crate::backend::messages_api::{
    CreateMessageRequest, CreateMessageResponse, Regular, Starting, Tp,
};
use crate::error::AppError;
use crate::user::AppUser;

verus! {

/// Inbound document: the message text, its classification code, and its
/// association — a reply target or a set of topics.
#[derive(Clone, Debug)]
pub struct Request {
    pub text: String,
    pub code: String,
    pub message_id: Option<String>,
    pub topic_ids: Option<Vec<String>>,
}

/// Outward document: the created message.
#[derive(Clone, Debug)]
pub struct Response {
    pub message: Message,
}

#[derive(Clone, Debug)]
pub struct Message {
    pub message_id: String,
}

impl CreateMessageRequest {
    /// Builds the messages backend's request, selecting the variant by which
    /// inbound field is populated; the reply variant takes precedence when
    /// both are.
    pub fn from(req: Request) -> (r: CreateMessageRequest)
        ensures
            r.text == Some(req.text),
            r.code == Some(req.code),
            r.user_id is None,
            req.message_id matches Some(m) ==> r.tp == Some(
                Tp::Regular(Regular { message_id: Some(m) }),
            ),
            req.message_id is None ==> (req.topic_ids matches Some(ts) ==> r.tp == Some(
                Tp::Starting(Starting { topic_ids: ts }),
            )),
            req.message_id is None && req.topic_ids is None ==> r.tp is None,
    {
        CreateMessageRequest {
            text: Some(req.text),
            user_id: None,
            code: Some(req.code),
            tp: if let Some(message_id) = req.message_id {
                Some(Tp::Regular(Regular { message_id: Some(message_id) }))
            } else if let Some(topic_ids) = req.topic_ids {
                Some(Tp::Starting(Starting { topic_ids }))
            } else {
                None
            },
        }
    }
}

/// What the messages endpoint sends to the backend for an authenticated
/// caller: the translated request, attributed to the caller.
pub fn create_message_request(user: AppUser, req: Request) -> (r: CreateMessageRequest)
    ensures
        r.user_id == Some(user.user_id),
        r.text == Some(req.text),
        r.code == Some(req.code),
        req.message_id matches Some(m) ==> r.tp == Some(
            Tp::Regular(Regular { message_id: Some(m) }),
        ),
        req.message_id is None ==> (req.topic_ids matches Some(ts) ==> r.tp == Some(
            Tp::Starting(Starting { topic_ids: ts }),
        )),
        req.message_id is None && req.topic_ids is None ==> r.tp is None,
{
    let mut r = CreateMessageRequest::from(req);
    r.user_id = Some(user.user_id);
    r
}

impl Response {
    /// Builds the outward document; a response without the new identifier is
    /// a backend that omitted promised data.
    pub fn try_from(res: CreateMessageResponse) -> (r: Result<Response, AppError>)
        ensures
            match r {
                Ok(out) => res.message_id == Some(out.message.message_id),
                Err(e) => e == AppError::Internal && res.message_id is None,
            },
    {
        match res.message_id {
            Some(message_id) => Ok(Response { message: Message { message_id } }),
            None => Err(AppError::Internal),
        }
    }
}

} // verus!
