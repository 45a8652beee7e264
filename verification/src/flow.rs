//! The aggregation engine's pipeline driver.
//!
//! The users listing takes four backend calls, each derived from the output
//! of the one before it. The driver is a state machine: the caller of the
//! crate asks for the pending request, performs the call, and hands the
//! outcome back to [`UsersFlow::step`]; the machine decides everything else.
//! A failed call — whichever of the four — aborts the whole aggregation:
//! the machine moves to its failed state, no partial top-level or nested
//! data is ever carried into a finished state.

use vstd::prelude::*;

use crate::backend::messages_api::{
    GetTopicsRequest, GetTopicsResponse, GetTopicsUsersRequest, GetTopicsUsersResponse,
};
use crate::backend::users_api::{
    GetSourcesRequest, GetSourcesResponse, GetUsersRequest, GetUsersResponse,
};
use crate::error::{AppError, BackendError};
use crate::user::AppUser;
use crate::users::Response;
use crate::users::{
    dedup_first, referenced_user_ids, spec_assembled, spec_assembly_fails, spec_referenced_ids,
    spec_topic_ids, str_views, topic_ids,
};

verus! {

/// One request of the users-listing pipeline.
#[derive(Clone, Debug)]
pub enum BackendRequest {
    Sources(GetSourcesRequest),
    Users(GetUsersRequest),
    Topics(GetTopicsRequest),
    TopicsUsers(GetTopicsUsersRequest),
}

/// The outcome of one pipeline call, as the transport hands it back.
#[derive(Clone, Debug)]
pub enum BackendResponse {
    Sources(GetSourcesResponse),
    Users(GetUsersResponse),
    Topics(GetTopicsResponse),
    TopicsUsers(GetTopicsUsersResponse),
}

/// The state of one users-listing aggregation: which call is pending, what
/// earlier calls returned, and — once terminal — the outcome.
#[derive(Clone, Debug)]
pub enum UsersFlow {
    /// Waiting for the caller's sources and contacts.
    FetchSources { user: AppUser },
    /// Waiting for the records of the referenced users.
    FetchUsers { user: AppUser, sources: GetSourcesResponse, user_ids: Vec<String> },
    /// Waiting for the topics of the referenced users.
    FetchTopics {
        user: AppUser,
        sources: GetSourcesResponse,
        user_ids: Vec<String>,
        users: GetUsersResponse,
    },
    /// Waiting for the caller's membership records across those topics.
    FetchTopicsUsers {
        user: AppUser,
        sources: GetSourcesResponse,
        users: GetUsersResponse,
        topics: GetTopicsResponse,
        topic_ids: Vec<String>,
    },
    /// The aggregation succeeded with the assembled listing.
    Done { response: Response },
    /// The aggregation failed; nothing of it is returned.
    Failed { error: AppError },
}

/// A copy of a list of strings, text for text.
fn clone_strings(v: &Vec<String>) -> (r: Vec<String>)
    ensures
        r@ == v@,
{
    let mut r: Vec<String> = Vec::new();
    let mut i: usize = 0;
    while i < v.len()
        invariant
            0 <= i <= v@.len(),
            r@.len() == i,
            forall|k: int| 0 <= k < i ==> r@[k] == v@[k],
        decreases v@.len() - i,
    {
        r.push(v[i].clone());
        i += 1;
    }
    proof {
        assert(r@ =~= v@);
    }
    r
}

impl UsersFlow {
    /// Is the aggregation over, one way or the other?
    pub open spec fn is_terminal(self) -> bool {
        self is Done || self is Failed
    }

    /// Begins the aggregation for an authenticated caller.
    pub fn start(user: AppUser) -> (s: UsersFlow)
        ensures
            s matches UsersFlow::FetchSources { user: u } && u == user,
    {
        UsersFlow::FetchSources { user }
    }

    /// The backend request the pipeline waits on, if it is not yet over.
    /// Every request is scoped as the flow demands: the first to the caller,
    /// the second and third to the referenced users, the fourth to the
    /// caller across the collected topics.
    pub fn request(&self) -> (r: Option<BackendRequest>)
        ensures
            match *self {
                UsersFlow::FetchSources { user } => r matches Some(BackendRequest::Sources(q))
                    && q.user_id == Some(user.user_id),
                UsersFlow::FetchUsers { user_ids, .. } => r matches Some(
                    BackendRequest::Users(q),
                ) && q.user_ids@ == user_ids@,
                UsersFlow::FetchTopics { user_ids, .. } => r matches Some(
                    BackendRequest::Topics(q),
                ) && q.user_ids@ == user_ids@,
                UsersFlow::FetchTopicsUsers { user, topic_ids, .. } => r matches Some(
                    BackendRequest::TopicsUsers(q),
                ) && q.topic_ids@ == topic_ids@ && q.user_id == Some(user.user_id),
                UsersFlow::Done { .. } => r is None,
                UsersFlow::Failed { .. } => r is None,
            },
    {
        match self {
            UsersFlow::FetchSources { user } => Some(
                BackendRequest::Sources(crate::users::get_sources_request(user)),
            ),
            UsersFlow::FetchUsers { user_ids, .. } => Some(
                BackendRequest::Users(crate::users::get_users_request(clone_strings(user_ids))),
            ),
            UsersFlow::FetchTopics { user_ids, .. } => Some(
                BackendRequest::Topics(crate::users::get_topics_request(clone_strings(user_ids))),
            ),
            UsersFlow::FetchTopicsUsers { user, topic_ids, .. } => Some(
                BackendRequest::TopicsUsers(
                    crate::users::get_topics_users_request(clone_strings(topic_ids), user),
                ),
            ),
            UsersFlow::Done { .. } => None,
            UsersFlow::Failed { .. } => None,
        }
    }

    /// Advances the pipeline by the outcome of one backend call.
    ///
    /// A failed call fails the whole aggregation, whichever of the four it
    /// was: the machine moves to `Failed` with the call's classification and
    /// carries nothing of the earlier results forward. A response of the
    /// wrong shape is an internal fault. A finished state stays as it is.
    pub fn step(self, event: Result<BackendResponse, BackendError>) -> (next: UsersFlow)
        ensures
            !self.is_terminal() ==> (event matches Err(be) ==> next == (UsersFlow::Failed {
                error: AppError::spec_from_backend(be),
            })),
            !self.is_terminal() ==> (next matches UsersFlow::Done { response } ==> (
            self matches UsersFlow::FetchTopicsUsers {
                sources,
                users,
                topics,
                ..
            } && event matches Ok(BackendResponse::TopicsUsers(tures)) && spec_assembled(
                sources,
                users,
                topics,
                tures,
                response,
            ))),
            match self {
                UsersFlow::FetchSources { user } => event matches Ok(ev) ==> match ev {
                    BackendResponse::Sources(res) => {
                        &&& spec_referenced_ids(res) matches Err(fault) ==> next == (
                        UsersFlow::Failed { error: fault })
                        &&& spec_referenced_ids(res) matches Ok(raw) ==> (
                        next matches UsersFlow::FetchUsers { user: u2, sources, user_ids }
                            && u2 == user && sources == res && str_views(user_ids@)
                            == dedup_first(raw))
                    },
                    _ => next == (UsersFlow::Failed { error: AppError::Internal }),
                },
                UsersFlow::FetchUsers { user, sources, user_ids } => event matches Ok(ev)
                    ==> match ev {
                    BackendResponse::Users(res) => next == (UsersFlow::FetchTopics {
                        user,
                        sources,
                        user_ids,
                        users: res,
                    }),
                    _ => next == (UsersFlow::Failed { error: AppError::Internal }),
                },
                UsersFlow::FetchTopics { user, sources, user_ids, users } => event matches Ok(
                    ev,
                ) ==> match ev {
                    BackendResponse::Topics(res) => {
                        &&& spec_topic_ids(res.topics@) matches Err(fault) ==> next == (
                        UsersFlow::Failed { error: fault })
                        &&& spec_topic_ids(res.topics@) matches Ok(raw) ==> (
                        next matches UsersFlow::FetchTopicsUsers {
                            user: u2,
                            sources: s2,
                            users: us2,
                            topics,
                            topic_ids,
                        } && u2 == user && s2 == sources && us2 == users && topics == res
                            && str_views(topic_ids@) == dedup_first(raw))
                    },
                    _ => next == (UsersFlow::Failed { error: AppError::Internal }),
                },
                UsersFlow::FetchTopicsUsers { user, sources, users, topics, topic_ids } => event
                    matches Ok(ev) ==> match ev {
                    BackendResponse::TopicsUsers(res) => {
                        &&& (next matches UsersFlow::Done { response } ==> spec_assembled(
                            sources,
                            users,
                            topics,
                            res,
                            response,
                        ))
                        &&& (next matches UsersFlow::Failed { error } ==> spec_assembly_fails(
                            sources,
                            users,
                            topics,
                            res,
                            error,
                        ))
                        &&& (next is Done || next is Failed)
                    },
                    _ => next == (UsersFlow::Failed { error: AppError::Internal }),
                },
                UsersFlow::Done { .. } => next == self,
                UsersFlow::Failed { .. } => next == self,
            },
    {
        if matches!(&self, UsersFlow::Done { .. }) || matches!(&self, UsersFlow::Failed { .. }) {
            return self;
        }
        let response = match event {
            Ok(res) => res,
            Err(be) => {
                return UsersFlow::Failed { error: AppError::from_backend(be) };
            },
        };
        match self {
            UsersFlow::FetchSources { user } => match response {
                BackendResponse::Sources(res) => match referenced_user_ids(&res) {
                    Ok(user_ids) => UsersFlow::FetchUsers { user, sources: res, user_ids },
                    Err(e) => UsersFlow::Failed { error: e },
                },
                _ => UsersFlow::Failed { error: AppError::Internal },
            },
            UsersFlow::FetchUsers { user, sources, user_ids } => match response {
                BackendResponse::Users(res) => UsersFlow::FetchTopics {
                    user,
                    sources,
                    user_ids,
                    users: res,
                },
                _ => UsersFlow::Failed { error: AppError::Internal },
            },
            UsersFlow::FetchTopics { user, sources, user_ids: _, users } => match response {
                BackendResponse::Topics(res) => match topic_ids(&res) {
                    Ok(tids) => UsersFlow::FetchTopicsUsers {
                        user,
                        sources,
                        users,
                        topics: res,
                        topic_ids: tids,
                    },
                    Err(e) => UsersFlow::Failed { error: e },
                },
                _ => UsersFlow::Failed { error: AppError::Internal },
            },
            UsersFlow::FetchTopicsUsers { user: _, sources, users, topics, topic_ids: _ } => match response {
                BackendResponse::TopicsUsers(res) => match Response::try_from(
                    sources,
                    users,
                    topics,
                    res,
                ) {
                    Ok(out) => UsersFlow::Done { response: out },
                    Err(e) => UsersFlow::Failed { error: e },
                },
                _ => UsersFlow::Failed { error: AppError::Internal },
            },
            // unreachable: finished states returned above
            _ => UsersFlow::Failed { error: AppError::Internal },
        }
    }
}

} // verus!
